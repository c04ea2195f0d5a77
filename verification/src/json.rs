use vstd::prelude::*;

verus! {

/// A JSON number as far as this library reads it: non-negative and negative
/// integers, and floating-point numbers whose value is never looked at.
#[derive(Clone, Debug, PartialEq)]
pub enum JsonNumber {
    PosInt(u64),
    NegInt(i64),
    Float,
}

/// A parsed JSON document.
#[derive(Debug, PartialEq)]
pub enum JsonValue {
    Null,
    Bool(bool),
    Number(JsonNumber),
    Text(String),
    List(Vec<JsonValue>),
    Object(Vec<(String, JsonValue)>),
}

/// The value stored under `key` among `entries`: the first entry with that key,
/// or `Null` where there is none.
pub open spec fn entry_lookup(entries: Seq<(String, JsonValue)>, key: Seq<char>) -> JsonValue
    decreases entries.len(),
{
    if entries.len() == 0 {
        JsonValue::Null
    } else if entries[0].0@ == key {
        entries[0].1
    } else {
        entry_lookup(entries.drop_first(), key)
    }
}

impl JsonValue {
    /// `value[key]`: the member `key` of an object, `Null` for anything else.
    pub open spec fn field(self, key: Seq<char>) -> JsonValue {
        match self {
            JsonValue::Object(entries) => entry_lookup(entries@, key),
            _ => JsonValue::Null,
        }
    }

    /// `value[i]`: the `i`-th element of a list, `Null` for anything else.
    pub open spec fn element(self, i: int) -> JsonValue {
        match self {
            JsonValue::List(items) => if 0 <= i < items@.len() {
                items@[i]
            } else {
                JsonValue::Null
            },
            _ => JsonValue::Null,
        }
    }

    pub open spec fn text(self) -> Option<Seq<char>> {
        match self {
            JsonValue::Text(s) => Some(s@),
            _ => None,
        }
    }

    pub open spec fn flag(self) -> Option<bool> {
        match self {
            JsonValue::Bool(b) => Some(b),
            _ => None,
        }
    }

    pub open spec fn unsigned(self) -> Option<u64> {
        match self {
            JsonValue::Number(JsonNumber::PosInt(n)) => Some(n),
            _ => None,
        }
    }

    pub open spec fn items(self) -> Option<Seq<JsonValue>> {
        match self {
            JsonValue::List(items) => Some(items@),
            _ => None,
        }
    }

    /// Looks up the member `key` of an object; `Null` where `self` is no object
    /// or has no such member.
    pub fn get<'a>(&'a self, key: &str) -> (r: &'a JsonValue)
        ensures
            *r == self.field(key@),
    {
        match self {
            JsonValue::Object(entries) => {
                let wanted = String::from_str(key);
                let n = entries.len();
                let mut i: usize = 0;
                assert(entries@.skip(0) =~= entries@);
                while i < n
                    invariant
                        n == entries@.len(),
                        i <= n,
                        wanted@ == key@,
                        self.field(key@) == entry_lookup(entries@, key@),
                        entry_lookup(entries@, key@) == entry_lookup(entries@.skip(i as int), key@),
                    decreases n - i,
                {
                    assert(entries@.skip(i as int).drop_first() =~= entries@.skip(i + 1));
                    if entries[i].0 == wanted {
                        assert(entries@.skip(i as int)[0] == entries@[i as int]);
                        return &entries[i].1;
                    }
                    i = i + 1;
                }
                &JsonValue::Null
            },
            _ => &JsonValue::Null,
        }
    }

    /// `value[i]`: the `i`-th element of a list; `Null` where `self` is no list
    /// or has no such element.
    pub fn at<'a>(&'a self, i: usize) -> (r: &'a JsonValue)
        ensures
            *r == self.element(i as int),
    {
        match self {
            JsonValue::List(items) => {
                if i < items.len() {
                    &items[i]
                } else {
                    &JsonValue::Null
                }
            },
            _ => &JsonValue::Null,
        }
    }

    /// The text of a JSON string.
    pub fn as_str(&self) -> (r: Option<&str>)
        ensures
            opt_text_view(r) == self.text(),
    {
        match self {
            JsonValue::Text(s) => Some(s.as_str()),
            _ => None,
        }
    }

    pub fn as_bool(&self) -> (r: Option<bool>)
        ensures
            r == self.flag(),
    {
        match self {
            JsonValue::Bool(b) => Some(*b),
            _ => None,
        }
    }

    /// The value of a number that is a non-negative integer.
    pub fn as_u64(&self) -> (r: Option<u64>)
        ensures
            r == self.unsigned(),
    {
        match self {
            JsonValue::Number(JsonNumber::PosInt(n)) => Some(*n),
            _ => None,
        }
    }

    pub fn is_object(&self) -> (r: bool)
        ensures
            r == (*self is Object),
    {
        match self {
            JsonValue::Object(_) => true,
            _ => false,
        }
    }

    pub fn is_null(&self) -> (r: bool)
        ensures
            r == (*self is Null),
    {
        match self {
            JsonValue::Null => true,
            _ => false,
        }
    }

    /// The elements of a list.
    pub fn as_array(&self) -> (r: Option<&Vec<JsonValue>>)
        ensures
            match r {
                Some(items) => self.items() == Some(items@),
                None => self.items() is None,
            },
    {
        match self {
            JsonValue::List(items) => Some(items),
            _ => None,
        }
    }

    /// `value.as_str().unwrap_or(default)`, as an owned string.
    pub fn text_or(&self, default: &str) -> (r: String)
        ensures
            r@ == text_or_default(self.text(), default@),
    {
        match self.as_str() {
            Some(s) => String::from_str(s),
            None => String::from_str(default),
        }
    }

    /// `value.as_bool().unwrap_or(default)`.
    pub fn flag_or(&self, default: bool) -> (r: bool)
        ensures
            r == match self.flag() {
                Some(b) => b,
                None => default,
            },
    {
        match self.as_bool() {
            Some(b) => b,
            None => default,
        }
    }

    /// `value.as_u64().unwrap_or(default)`.
    pub fn unsigned_or(&self, default: u64) -> (r: u64)
        ensures
            r == match self.unsigned() {
                Some(n) => n,
                None => default,
            },
    {
        match self.as_u64() {
            Some(n) => n,
            None => default,
        }
    }
}

/// The characters of an optional string slice.
pub open spec fn opt_text_view(o: Option<&str>) -> Option<Seq<char>> {
    match o {
        Some(s) => Some(s@),
        None => None,
    }
}

/// `text.unwrap_or(default)`.
pub open spec fn text_or_default(text: Option<Seq<char>>, default: Seq<char>) -> Seq<char> {
    match text {
        Some(t) => t,
        None => default,
    }
}

} // verus!
