//! The OAuth redirect that the browser sends to the local callback server:
//! reading the authorization code, or the error, out of its request line.

use vstd::prelude::*;
use crate::text::{chars_of, contains, matches_at, occurs_at, occurs_in};
use crate::uri::{all_ascii_alphanumeric, is_ascii_alphanumeric};
use vstd::utf8::{decode_utf8, valid_utf8};

verus! {

/// The index of the first `c` in `s`.
pub open spec fn first_index_of(s: Seq<char>, c: char) -> Option<int>
    decreases s.len(),
{
    if s.len() == 0 {
        None
    } else if s[0] == c {
        Some(0)
    } else {
        match first_index_of(s.drop_first(), c) {
            Some(i) => Some(i + 1),
            None => None,
        }
    }
}

/// `first_index_of` finds the first occurrence, and only finds one where
/// there is one.
pub proof fn first_index_of_meaning(s: Seq<char>, c: char)
    ensures
        match first_index_of(s, c) {
            Some(i) => 0 <= i < s.len() && s[i] == c && forall|m: int| 0 <= m < i ==> s[m] != c,
            None => forall|m: int| 0 <= m < s.len() ==> s[m] != c,
        },
    decreases s.len(),
{
    if s.len() > 0 && s[0] != c {
        first_index_of_meaning(s.drop_first(), c);
        match first_index_of(s.drop_first(), c) {
            Some(i) => {
                assert forall|m: int| 0 <= m < i + 1 implies s[m] != c by {
                    if m > 0 {
                        assert(s[m] == s.drop_first()[m - 1]);
                    }
                }
            },
            None => {
                assert forall|m: int| 0 <= m < s.len() implies s[m] != c by {
                    if m > 0 {
                        assert(s[m] == s.drop_first()[m - 1]);
                    }
                }
            },
        }
    }
}

/// The index, counted from `from`, of the first `c` in `v[from..to]`.
pub fn find_char(v: &Vec<char>, c: char, from: usize, to: usize) -> (r: Option<usize>)
    requires
        from <= to <= v@.len(),
    ensures
        match first_index_of(v@.subrange(from as int, to as int), c) {
            Some(i) => r == Some((from + i) as usize),
            None => r is None,
        },
{
    let ghost s = v@.subrange(from as int, to as int);
    proof {
        first_index_of_meaning(s, c);
    }
    let mut j = from;
    while j < to
        invariant
            from <= j <= to <= v@.len(),
            s == v@.subrange(from as int, to as int),
            forall|m: int| from <= m < j ==> v@[m] != c,
        decreases to - j,
    {
        if v[j] == c {
            assert(s[j - from] == c);
            assert forall|m: int| 0 <= m < j - from implies s[m] != c by {
                assert(s[m] == v@[m + from]);
            }
            proof {
                first_index_of_meaning(s, c);
                if let Some(i) = first_index_of(s, c) {
                    if i < j - from {
                        assert(s[i] == v@[i + from]);
                    }
                }
            }
            return Some(j);
        }
        j = j + 1;
    }
    assert forall|m: int| 0 <= m < s.len() implies s[m] != c by {
        assert(s[m] == v@[m + from]);
    }
    proof {
        first_index_of_meaning(s, c);
    }
    None
}

/// The first line of `s`, as `str::lines` gives it: up to the first `\n`,
/// without a `\r` just before it; `None` for an empty `s`.
pub open spec fn first_line(s: Seq<char>) -> Option<Seq<char>> {
    if s.len() == 0 {
        None
    } else {
        match first_index_of(s, '\n') {
            None => Some(s),
            Some(k) => if k > 0 && s[k - 1] == '\r' {
                Some(s.take(k - 1))
            } else {
                Some(s.take(k))
            },
        }
    }
}

/// `s.lines().next()`.
pub fn first_line_of(s: &str) -> (r: Option<&str>)
    ensures
        match r {
            Some(line) => first_line(s@) == Some(line@),
            None => first_line(s@) is None,
        },
{
    let v = chars_of(s);
    let n = v.len();
    if n == 0 {
        return None;
    }
    assert(v@.subrange(0, n as int) =~= v@);
    proof {
        first_index_of_meaning(v@, '\n');
    }
    match find_char(&v, '\n', 0, n) {
        None => Some(s.substring_char(0, n)),
        Some(k) => {
            if k > 0 && v[k - 1] == '\r' {
                Some(s.substring_char(0, k - 1))
            } else {
                Some(s.substring_char(0, k))
            }
        },
    }
}

/// Whether `c` has the Unicode `White_Space` property, as `char::is_whitespace`
/// decides.
pub open spec fn is_space(c: char) -> bool {
    ||| '\u{9}' <= c <= '\u{d}'
    ||| c == ' '
    ||| c == '\u{85}'
    ||| c == '\u{a0}'
    ||| c == '\u{1680}'
    ||| '\u{2000}' <= c <= '\u{200a}'
    ||| c == '\u{2028}'
    ||| c == '\u{2029}'
    ||| c == '\u{202f}'
    ||| c == '\u{205f}'
    ||| c == '\u{3000}'
}

pub fn is_space_char(c: char) -> (r: bool)
    ensures
        r == is_space(c),
{
    ('\u{9}' <= c && c <= '\u{d}') || c == ' ' || c == '\u{85}' || c == '\u{a0}' || c
        == '\u{1680}' || ('\u{2000}' <= c && c <= '\u{200a}') || c == '\u{2028}' || c
        == '\u{2029}' || c == '\u{202f}' || c == '\u{205f}' || c == '\u{3000}'
}

/// The length of the run of non-space characters that begins `s`.
pub open spec fn word_len(s: Seq<char>) -> nat
    decreases s.len(),
{
    if s.len() == 0 || is_space(s[0]) {
        0
    } else {
        1 + word_len(s.drop_first())
    }
}

/// A word is as long as its run of non-space characters: it ends at the first
/// space or at the end of `s`.
pub proof fn word_len_meaning(s: Seq<char>, m: nat)
    requires
        m <= s.len(),
        forall|j: int| 0 <= j < m ==> !is_space(s[j]),
        m == s.len() || is_space(s[m as int]),
    ensures
        word_len(s) == m,
    decreases m,
{
    if m > 0 {
        assert forall|j: int| 0 <= j < m - 1 implies !is_space(s.drop_first()[j]) by {
            assert(s.drop_first()[j] == s[j + 1]);
        }
        if m < s.len() {
            assert(s.drop_first()[m - 1] == s[m as int]);
        }
        word_len_meaning(s.drop_first(), (m - 1) as nat);
    }
}

/// A word is no longer than the text it begins.
pub proof fn word_len_bound(s: Seq<char>)
    ensures
        word_len(s) <= s.len(),
    decreases s.len(),
{
    if s.len() > 0 {
        word_len_bound(s.drop_first());
    }
}

/// The `n`-th (from 0) of the words of `s` that runs of spaces separate, as
/// `s.split_whitespace().nth(n)` gives it.
pub open spec fn nth_word(s: Seq<char>, n: nat) -> Option<Seq<char>>
    decreases s.len(),
{
    if s.len() == 0 {
        None
    } else if is_space(s[0]) {
        nth_word(s.drop_first(), n)
    } else if n == 0 {
        Some(s.take(word_len(s) as int))
    } else {
        proof {
            word_len_bound(s);
        }
        nth_word(s.skip(word_len(s) as int), (n - 1) as nat)
    }
}

/// The bounds, in `v`, of the `n`-th word of `v`.
pub fn word_bounds(v: &Vec<char>, n: usize) -> (r: Option<(usize, usize)>)
    ensures
        match nth_word(v@, n as nat) {
            Some(w) => r matches Some((a, b)) && a <= b <= v@.len() && v@.subrange(
                a as int,
                b as int,
            ) == w,
            None => r is None,
        },
{
    let len = v.len();
    let mut i: usize = 0;
    let mut k: usize = n;
    assert(v@.skip(0) =~= v@);
    while i < len
        invariant
            len == v@.len(),
            i <= len,
            nth_word(v@, n as nat) == nth_word(v@.skip(i as int), k as nat),
        decreases len - i,
    {
        let ghost rest = v@.skip(i as int);
        assert(rest[0] == v@[i as int]);
        if is_space_char(v[i]) {
            assert(rest.drop_first() =~= v@.skip(i + 1));
            i = i + 1;
        } else {
            let mut e = i + 1;
            while e < len && !is_space_char(v[e])
                invariant
                    len == v@.len(),
                    i < e <= len,
                    forall|j: int| i <= j < e ==> !is_space(v@[j]),
                decreases len - e,
            {
                e = e + 1;
            }
            proof {
                assert forall|j: int| 0 <= j < e - i implies !is_space(rest[j]) by {
                    assert(rest[j] == v@[i + j]);
                }
                if e < len {
                    assert(rest[e - i] == v@[e as int]);
                }
                word_len_meaning(rest, (e - i) as nat);
            }
            if k == 0 {
                assert(rest.take(e - i) =~= v@.subrange(i as int, e as int));
                return Some((i, e));
            }
            assert(rest.skip(e - i) =~= v@.skip(e as int));
            k = k - 1;
            i = e;
        }
    }
    assert(v@.skip(len as int) =~= Seq::<char>::empty());
    None
}

/// The query of a request target, as `path.split('?').nth(1)` gives it: the
/// text after the first `?` up to the next `?` or the end.
pub open spec fn query_of(path: Seq<char>) -> Option<Seq<char>> {
    match first_index_of(path, '?') {
        None => None,
        Some(q) => {
            let after = path.skip(q + 1);
            match first_index_of(after, '?') {
                None => Some(after),
                Some(e) => Some(after.take(e)),
            }
        },
    }
}

/// The value in the first `&`-separated piece of `query` that starts with
/// `search`: the rest of that piece.
pub open spec fn piece_value(query: Seq<char>, search: Seq<char>) -> Option<Seq<char>>
    decreases query.len(),
{
    match first_index_of(query, '&') {
        None => if search.is_prefix_of(query) {
            Some(query.skip(search.len() as int))
        } else {
            None
        },
        Some(a) => if search.is_prefix_of(query.take(a)) {
            Some(query.take(a).skip(search.len() as int))
        } else {
            proof {
                first_index_of_meaning(query, '&');
            }
            piece_value(query.skip(a + 1), search)
        },
    }
}

/// The value of the query parameter `param` in the request target `path`.
pub open spec fn param_value(path: Seq<char>, param: Seq<char>) -> Option<Seq<char>> {
    match query_of(path) {
        None => None,
        Some(q) => piece_value(q, param.push('=')),
    }
}

pub open spec fn opt_view(o: Option<&str>) -> Option<Seq<char>> {
    match o {
        Some(s) => Some(s@),
        None => None,
    }
}

/// The value of the query parameter `param` in the request target `path`,
/// such as `abc` for `code` in `/callback?code=abc&state=x`.
pub fn extract_param<'a>(path: &'a str, param: &str) -> (r: Option<&'a str>)
    ensures
        opt_view(r) == param_value(path@, param@),
{
    let v = chars_of(path);
    let n = v.len();
    let mut search = chars_of(param);
    search.push('=');
    assert(v@.subrange(0, n as int) =~= v@);
    let q = match find_char(&v, '?', 0, n) {
        None => {
            return None;
        },
        Some(q) => q,
    };
    proof {
        first_index_of_meaning(v@, '?');
    }
    let qs = q + 1;
    assert(v@.skip(qs as int) =~= v@.subrange(qs as int, n as int));
    let qe = match find_char(&v, '?', qs, n) {
        None => n,
        Some(e) => e,
    };
    proof {
        first_index_of_meaning(v@.skip(qs as int), '?');
        assert(v@.skip(qs as int).take(qe - qs) =~= v@.subrange(qs as int, qe as int));
        assert(query_of(path@) == Some(v@.subrange(qs as int, qe as int)));
    }
    let mut start = qs;
    loop
        invariant
            qs <= start <= qe <= n,
            n == v@.len(),
            v@ == path@,
            search@ == param@.push('='),
            param_value(path@, param@) == piece_value(v@.subrange(start as int, qe as int), search@),
        decreases qe - start,
    {
        let ghost query = v@.subrange(start as int, qe as int);
        proof {
            first_index_of_meaning(query, '&');
        }
        let piece_end = match find_char(&v, '&', start, qe) {
            None => qe,
            Some(a) => a,
        };
        let ghost piece = v@.subrange(start as int, piece_end as int);
        assert(piece_end == qe ==> query =~= piece);
        assert(piece_end < qe ==> query.take(piece_end - start) =~= piece);
        let slen = search.len();
        if slen <= piece_end - start && matches_at(&v, &search, start) {
            proof {
                assert(search@.is_prefix_of(piece)) by {
                    assert(piece.subrange(0, slen as int) =~= v@.subrange(
                        start as int,
                        start + slen,
                    ));
                }
                assert(piece.skip(slen as int) =~= v@.subrange(start + slen, piece_end as int));
            }
            return Some(path.substring_char(start + slen, piece_end));
        }
        proof {
            if search@.is_prefix_of(piece) {
                assert(v@.subrange(start as int, start + slen) =~= piece.subrange(0, slen as int));
            }
        }
        if piece_end == qe {
            return None;
        }
        assert(query.skip(piece_end - start + 1) =~= v@.subrange(piece_end + 1, qe as int));
        start = piece_end + 1;
    }
}

/// Why the callback request carries no authorization code.
#[derive(Clone, Debug, PartialEq)]
pub enum CallbackError {
    /// Nothing was received.
    EmptyRequest,
    /// The first line has no request target.
    MalformedRequestLine,
    /// Spotify redirected with an `error=` parameter; `error` is its value.
    Denied { error: String },
    /// The request target has no `code` parameter.
    MissingCode,
}

pub enum CallbackErrorView {
    EmptyRequest,
    MalformedRequestLine,
    Denied { error: Seq<char> },
    MissingCode,
}

impl View for CallbackError {
    type V = CallbackErrorView;

    open spec fn view(&self) -> CallbackErrorView {
        match self {
            CallbackError::EmptyRequest => CallbackErrorView::EmptyRequest,
            CallbackError::MalformedRequestLine => CallbackErrorView::MalformedRequestLine,
            CallbackError::Denied { error } => CallbackErrorView::Denied { error: error@ },
            CallbackError::MissingCode => CallbackErrorView::MissingCode,
        }
    }
}

/// What the callback request says: the authorization code, or why there is
/// none. The request target is the second word of the first line; a target
/// that holds `error=` anywhere is a refusal, whose reason is the `error`
/// parameter (`unknown` without one).
pub open spec fn callback_outcome(request: Seq<char>) -> Result<Seq<char>, CallbackErrorView> {
    match first_line(request) {
        None => Err(CallbackErrorView::EmptyRequest),
        Some(line) => match nth_word(line, 1) {
            None => Err(CallbackErrorView::MalformedRequestLine),
            Some(path) => if occurs_in(path, "error="@) {
                Err(
                    CallbackErrorView::Denied {
                        error: match param_value(path, "error"@) {
                            Some(e) => e,
                            None => "unknown"@,
                        },
                    },
                )
            } else {
                match param_value(path, "code"@) {
                    Some(code) => Ok(code),
                    None => Err(CallbackErrorView::MissingCode),
                }
            },
        },
    }
}

pub open spec fn callback_result_view(r: Result<String, CallbackError>) -> Result<
    Seq<char>,
    CallbackErrorView,
> {
    match r {
        Ok(code) => Ok(code@),
        Err(e) => Err(e@),
    }
}

/// Reads the authorization code out of the callback request `request`.
pub fn parse_callback_request(request: &str) -> (r: Result<String, CallbackError>)
    ensures
        callback_result_view(r) == callback_outcome(request@),
{
    let line = match first_line_of(request) {
        None => {
            return Err(CallbackError::EmptyRequest);
        },
        Some(line) => line,
    };
    let v = chars_of(line);
    let (a, b) = match word_bounds(&v, 1) {
        None => {
            return Err(CallbackError::MalformedRequestLine);
        },
        Some(bounds) => bounds,
    };
    let path = line.substring_char(a, b);
    if contains(path, "error=") {
        let error = match extract_param(path, "error") {
            Some(e) => String::from_str(e),
            None => String::from_str("unknown"),
        };
        return Err(CallbackError::Denied { error });
    }
    match extract_param(path, "code") {
        Some(code) => Ok(String::from_str(code)),
        None => Err(CallbackError::MissingCode),
    }
}

/// What `String::from_utf8_lossy` makes of `bytes`.
pub uninterp spec fn lossy_utf8(bytes: Seq<u8>) -> Seq<char>;

/// Calls `String::from_utf8_lossy`. Trusted: the text depends on the bytes
/// alone (it is named `lossy_utf8`) and, as std documents, bytes that are
/// valid UTF-8 give exactly the text they encode. What replaces invalid
/// sequences is not stated.
#[verifier::external_body]
fn decode_lossy(bytes: &[u8]) -> (s: String)
    ensures
        s@ == lossy_utf8(bytes@),
        valid_utf8(bytes@) ==> s@ == decode_utf8(bytes@),
{
    String::from_utf8_lossy(bytes).into_owned()
}

/// Reads the authorization code out of the bytes that the browser sent to
/// the callback server.
pub fn parse_callback_bytes(bytes: &[u8]) -> (r: Result<String, CallbackError>)
    ensures
        callback_result_view(r) == callback_outcome(lossy_utf8(bytes@)),
        valid_utf8(bytes@) ==> callback_result_view(r) == callback_outcome(decode_utf8(bytes@)),
{
    let request = decode_lossy(bytes);
    parse_callback_request(request.as_str())
}

/// In `a`, then `c`, then `b`, where `a` holds no `c`, the first `c` is the
/// one after `a`.
pub proof fn first_index_after(a: Seq<char>, c: char, b: Seq<char>)
    requires
        !a.contains(c),
    ensures
        first_index_of(a.push(c) + b, c) == Some(a.len() as int),
{
    let s = a.push(c) + b;
    first_index_of_meaning(s, c);
    assert(s[a.len() as int] == c);
    match first_index_of(s, c) {
        Some(i) => {
            if i < a.len() {
                assert(s[i] == a[i]);
            }
        },
        None => {},
    }
}

/// A text without `c` has no first `c`.
pub proof fn first_index_absent(s: Seq<char>, c: char)
    requires
        !s.contains(c),
    ensures
        first_index_of(s, c) is None,
{
    first_index_of_meaning(s, c);
}

/// The value of the only parameter of a request target reads back: in
/// `<prefix>?<key>=<value>`, where neither `prefix` nor `key` holds a `?` and
/// `value` holds neither `&` nor `?`, the parameter `key` is `value`.
pub proof fn param_reads_back(prefix: Seq<char>, key: Seq<char>, value: Seq<char>)
    requires
        !prefix.contains('?'),
        !key.contains('?'),
        !key.contains('&'),
        !value.contains('&'),
        !value.contains('?'),
    ensures
        param_value(prefix.push('?') + key.push('=') + value, key) == Some(value),
{
    let query = key.push('=') + value;
    let path = prefix.push('?') + query;
    assert(prefix.push('?') + key.push('=') + value =~= path);
    first_index_after(prefix, '?', query);
    assert(path.skip(prefix.len() + 1 as int) =~= query);
    assert(!query.contains('?')) by {
        if query.contains('?') {
            let j = choose|j: int| 0 <= j < query.len() && query[j] == '?';
            if j < key.len() {
                assert(key[j] == query[j]);
            } else if j > key.len() {
                assert(value[j - key.len() - 1] == query[j]);
            }
        }
    }
    assert(!query.contains('&')) by {
        if query.contains('&') {
            let j = choose|j: int| 0 <= j < query.len() && query[j] == '&';
            if j < key.len() {
                assert(key[j] == query[j]);
            } else if j > key.len() {
                assert(value[j - key.len() - 1] == query[j]);
            }
        }
    }
    first_index_absent(query, '?');
    first_index_absent(query, '&');
    assert(key.push('=').is_prefix_of(query)) by {
        assert(query.subrange(0, key.len() + 1 as int) =~= key.push('='));
    }
    assert(query.skip(key.len() + 1 as int) =~= value);
    assert(query_of(path) == Some(query));
    assert(piece_value(query, key.push('=')) == Some(value));
}

/// The redirect that Spotify sends after a successful login gives back its
/// code: for `GET /callback?code=<code> HTTP/1.1`, with a code of ASCII
/// letters and digits and any headers after the first line, the result is
/// that code.
pub proof fn callback_code_reads_back(code: Seq<char>, headers: Seq<char>)
    requires
        all_ascii_alphanumeric(code),
    ensures
        callback_outcome("GET /callback?code="@ + code + " HTTP/1.1\r\n"@ + headers) == Ok::<
            Seq<char>,
            CallbackErrorView,
        >(code),
{
    reveal_strlit("GET /callback?code=");
    reveal_strlit(" HTTP/1.1\r\n");
    reveal_strlit("error=");
    reveal_strlit("code");
    let lead = seq!['/', 'c', 'a', 'l', 'l', 'b', 'a', 'c', 'k', '?', 'c', 'o', 'd', 'e', '='];
    let path = lead + code;
    let version = seq![' ', 'H', 'T', 'T', 'P', '/', '1', '.', '1'];
    let line = seq!['G', 'E', 'T', ' '] + path + version;
    let request = "GET /callback?code="@ + code + " HTTP/1.1\r\n"@ + headers;
    assert("GET /callback?code="@ =~= seq!['G', 'E', 'T', ' '] + lead);
    assert(" HTTP/1.1\r\n"@ =~= version.push('\r').push('\n'));
    assert(request =~= line.push('\r').push('\n') + headers);
    // Every character of the path is a letter, a digit or one of `/?=`.
    assert forall|j: int| 0 <= j < path.len() implies !is_space(path[j]) && path[j] != '\n'
        && path[j] != '\r' by {
        if j >= lead.len() {
            assert(path[j] == code[j - lead.len()]);
            assert(is_ascii_alphanumeric(code[j - lead.len()]));
        }
    }
    assert(!line.push('\r').contains('\n')) by {
        if line.push('\r').contains('\n') {
            let j = choose|j: int| 0 <= j < line.len() + 1 && line.push('\r')[j] == '\n';
            if 4 <= j < 4 + path.len() {
                assert(line[j] == path[j - 4]);
            }
        }
    }
    first_index_after(line.push('\r'), '\n', headers);
    assert(request.take(line.len() as int) =~= line);
    assert(first_line(request) == Some(line));
    // The words of the request line.
    word_len_meaning(line, 3);
    let after_method = line.skip(3);
    assert(after_method.drop_first() =~= path + version);
    assert forall|j: int| 0 <= j < path.len() implies !is_space((path + version)[j]) by {
        assert((path + version)[j] == path[j]);
    }
    word_len_meaning(path + version, path.len());
    assert((path + version).take(path.len() as int) =~= path);
    assert(nth_word(path + version, 0) == Some(path));
    assert(nth_word(after_method, 0) == Some(path));
    assert(nth_word(line, 1) == Some(path));
    // No refusal: the only `=` of the path follows `code`.
    assert(!occurs_in(path, "error="@)) by {
        if occurs_in(path, "error="@) {
            let at = choose|at: int| occurs_at(path, "error="@, at);
            assert(path.subrange(at, at + 6)[5] == '=');
            assert(path[at + 5] == '=');
            if at + 5 >= lead.len() {
                assert(path[at + 5] == code[at + 5 - lead.len()]);
                assert(is_ascii_alphanumeric(code[at + 5 - lead.len()]));
            }
            assert(path.subrange(at, at + 6)[0] == 'e');
        }
    }
    // The code parameter.
    let prefix = seq!['/', 'c', 'a', 'l', 'l', 'b', 'a', 'c', 'k'];
    let key = "code"@;
    assert(path =~= prefix.push('?') + key.push('=') + code);
    assert(!code.contains('&') && !code.contains('?')) by {
        if code.contains('&') || code.contains('?') {
            let j = choose|j: int| 0 <= j < code.len() && (code[j] == '&' || code[j] == '?');
            assert(is_ascii_alphanumeric(code[j]));
        }
    }
    param_reads_back(prefix, key, code);
}

/// A text that can stand as a query parameter's value on the request line:
/// it holds no `&`, no `?` and no white space.
pub open spec fn plain_value(s: Seq<char>) -> bool {
    forall|j: int| 0 <= j < s.len() ==> s[j] != '&' && s[j] != '?' && !is_space(#[trigger] s[j])
}

/// In `lead + v + tail`, where `v` is plain and neither `lead` nor `tail`
/// holds `pat`'s second character, and `pat` has no `&`, `?` or white space,
/// an occurrence of `pat` whose second character falls inside `v` lies
/// wholly inside `v`, so `v` holds `pat`.
proof fn occurrence_inside(
    lead: Seq<char>,
    v: Seq<char>,
    tail: Seq<char>,
    pat: Seq<char>,
    at: int,
)
    requires
        plain_value(v),
        pat.len() >= 2,
        forall|k: int| 0 <= k < pat.len() ==> pat[k] != '&',
        tail.len() > 0 && tail[0] == '&',
        lead.len() > 0 && lead[lead.len() - 1] != pat[0],
        occurs_at(lead + v + tail, pat, at),
        lead.len() <= at + 1 < lead.len() + v.len(),
    ensures
        occurs_in(v, pat),
{
    let s = lead + v + tail;
    let n = pat.len() as int;
    assert(s.subrange(at, at + n)[0] == s[at]);
    if at == lead.len() - 1 {
        assert(s[at] == lead[at]);
        assert(false);
    }
    if at + n > lead.len() + v.len() {
        let k = lead.len() + v.len() - at;
        assert(s.subrange(at, at + n)[k] == s[at + k]);
        assert(s[at + k] == tail[0]);
        assert(false);
    }
    let o = at - lead.len();
    assert(v.subrange(o, o + n) =~= s.subrange(at, at + n)) by {
        assert forall|k: int| 0 <= k < n implies #[trigger] v.subrange(o, o + n)[k] == s.subrange(at, at + n)[k] by {
            assert(s[at + k] == v[o + k]);
        }
    }
    assert(occurs_at(v, pat, o));
}

spec fn state_target(code: Seq<char>, state: Seq<char>) -> Seq<char> {
    seq!['/', 'c', 'a', 'l', 'l', 'b', 'a', 'c', 'k', '?', 'c', 'o', 'd', 'e', '='] + code + seq![
        '&',
        's',
        't',
        'a',
        't',
        'e',
        '=',
    ] + state
}

spec fn request_version() -> Seq<char> {
    seq![' ', 'H', 'T', 'T', 'P', '/', '1', '.', '1']
}

/// The request line of such a redirect is its first line, and the target is
/// its second word.
proof fn state_target_is_second_word(code: Seq<char>, state: Seq<char>, headers: Seq<char>)
    requires
        plain_value(code),
        plain_value(state),
    ensures
        ({
            let line = seq!['G', 'E', 'T', ' '] + state_target(code, state) + request_version();
            &&& first_line(line.push('\r').push('\n') + headers) == Some(line)
            &&& nth_word(line, 1) == Some(state_target(code, state))
        }),
{
    let lead = seq!['/', 'c', 'a', 'l', 'l', 'b', 'a', 'c', 'k', '?', 'c', 'o', 'd', 'e', '='];
    let mid = seq!['&', 's', 't', 'a', 't', 'e', '='];
    let path = state_target(code, state);
    let version = request_version();
    let line = seq!['G', 'E', 'T', ' '] + path + version;
    let request = line.push('\r').push('\n') + headers;
    let c = code.len() as int;
    assert forall|j: int| 0 <= j < path.len() implies !is_space(path[j]) by {
        if 15 <= j < 15 + c {
            assert(path[j] == code[j - 15]);
        } else if j >= 22 + c {
            assert(path[j] == state[j - 22 - c]);
        } else if j >= 15 + c {
            assert(path[j] == mid[j - 15 - c]);
        } else {
            assert(path[j] == lead[j]);
        }
    }
    assert(!line.push('\r').contains('\n')) by {
        if line.push('\r').contains('\n') {
            let j = choose|j: int| 0 <= j < line.len() + 1 && line.push('\r')[j] == '\n';
            if 4 <= j < 4 + path.len() {
                assert(line[j] == path[j - 4]);
            }
        }
    }
    first_index_after(line.push('\r'), '\n', headers);
    assert(line.push('\r').push('\n') + headers =~= line.push('\r') + seq!['\n'] + headers);
    assert(request.take(line.len() as int) =~= line);
    assert(first_line(request) == Some(line));
    word_len_meaning(line, 3);
    let after_method = line.skip(3);
    assert(after_method.drop_first() =~= path + version);
    assert forall|j: int| 0 <= j < path.len() implies !is_space((path + version)[j]) by {
        assert((path + version)[j] == path[j]);
    }
    word_len_meaning(path + version, path.len());
    assert((path + version).take(path.len() as int) =~= path);
    assert(nth_word(path + version, 0) == Some(path));
    assert(nth_word(after_method, 0) == Some(path));
}

/// Such a target holds no `error=`: one would need an `r`, and only the code
/// and the state hold one.
proof fn state_target_is_no_refusal(code: Seq<char>, state: Seq<char>)
    requires
        plain_value(code),
        plain_value(state),
        !occurs_in(code, "error="@),
        !occurs_in(state, "error="@),
    ensures
        !occurs_in(state_target(code, state), "error="@),
{
    reveal_strlit("error=");
    let lead = seq!['/', 'c', 'a', 'l', 'l', 'b', 'a', 'c', 'k', '?', 'c', 'o', 'd', 'e', '='];
    let mid = seq!['&', 's', 't', 'a', 't', 'e', '='];
    let path = state_target(code, state);
    let c = code.len() as int;
    let e = "error="@;
    assert(e =~= seq!['e', 'r', 'r', 'o', 'r', '=']);
    if occurs_in(path, e) {
        let at = choose|at: int| occurs_at(path, e, at);
        assert(path.subrange(at, at + 6)[1] == path[at + 1]);
        assert(path[at + 1] == 'r');
        if at + 1 < 15 {
            assert(path[at + 1] == lead[at + 1]);
        } else if at + 1 < 15 + c {
            assert(path =~= lead + code + (mid + state));
            occurrence_inside(lead, code, mid + state, e, at);
        } else if at + 1 < 22 + c {
            assert(path[at + 1] == mid[at + 1 - 15 - c]);
        } else {
            let lead2 = lead + code + mid;
            let tail2 = seq!['&'];
            let s2 = lead2 + state + tail2;
            assert(path.subrange(at, at + 6) =~= s2.subrange(at, at + 6));
            occurrence_inside(lead2, state, tail2, e, at);
        }
    }
}

/// The `code` parameter of such a target is the code.
proof fn state_target_code(code: Seq<char>, state: Seq<char>)
    requires
        plain_value(code),
        plain_value(state),
    ensures
        param_value(state_target(code, state), "code"@) == Some(code),
{
    reveal_strlit("code");
    let path = state_target(code, state);
    let c = code.len() as int;
    let first = seq!['c', 'o', 'd', 'e', '='] + code;
    let rest = seq!['s', 't', 'a', 't', 'e', '='] + state;
    let query = first.push('&') + rest;
    let prefix = seq!['/', 'c', 'a', 'l', 'l', 'b', 'a', 'c', 'k'];
    assert(path =~= prefix.push('?') + query);
    first_index_after(prefix, '?', query);
    assert(path.skip(10) =~= query);
    assert(!query.contains('?')) by {
        if query.contains('?') {
            let j = choose|j: int| 0 <= j < query.len() && query[j] == '?';
            if 5 <= j < 5 + c {
                assert(query[j] == code[j - 5]);
            } else if j >= 12 + c {
                assert(query[j] == state[j - 12 - c]);
            }
        }
    }
    first_index_absent(query, '?');
    assert(query_of(path) == Some(query));
    assert(!first.contains('&')) by {
        if first.contains('&') {
            let j = choose|j: int| 0 <= j < first.len() && first[j] == '&';
            if j >= 5 {
                assert(first[j] == code[j - 5]);
            }
        }
    }
    first_index_after(first, '&', rest);
    assert(query.take(5 + c) =~= first);
    assert("code"@.push('=') =~= seq!['c', 'o', 'd', 'e', '=']);
    assert("code"@.push('=').is_prefix_of(first)) by {
        assert(first.subrange(0, 5) =~= "code"@.push('='));
    }
    assert(query.take(5 + c).skip(5) =~= code);
    assert(piece_value(query, "code"@.push('=')) == Some(code));
}

/// The redirect that Spotify sends after a successful login gives back its
/// code verbatim, whatever characters it holds: for
/// `GET /callback?code=<code>&state=<state> HTTP/1.1`, with any headers after
/// the first line, where the code and the state hold no `&`, `?` or white
/// space (the code's `-`, `_`, `.`, `~` included) and no `error=` (a target
/// holding `error=` is a refusal), the result is the code.
pub proof fn callback_code_with_state_reads_back(
    code: Seq<char>,
    state: Seq<char>,
    headers: Seq<char>,
)
    requires
        plain_value(code),
        plain_value(state),
        !occurs_in(code, "error="@),
        !occurs_in(state, "error="@),
    ensures
        callback_outcome(
            "GET /callback?code="@ + code + "&state="@ + state + " HTTP/1.1\r\n"@ + headers,
        ) == Ok::<Seq<char>, CallbackErrorView>(code),
{
    reveal_strlit("GET /callback?code=");
    reveal_strlit("&state=");
    reveal_strlit(" HTTP/1.1\r\n");
    let line = seq!['G', 'E', 'T', ' '] + state_target(code, state) + request_version();
    let request = "GET /callback?code="@ + code + "&state="@ + state + " HTTP/1.1\r\n"@ + headers;
    assert(request =~= line.push('\r').push('\n') + headers);
    state_target_is_second_word(code, state, headers);
    state_target_is_no_refusal(code, state);
    state_target_code(code, state);
}

/// The HTTP answer sent back to the browser once its request is read.
pub open spec fn callback_reply_text() -> Seq<char> {
    "HTTP/1.1 200 OK\r\nContent-Type: text/html\r\nConnection: close\r\n\r\n<html><body><h1>Authentication successful!</h1><p>You can close this window and return to your terminal.</p></body></html>"@
}

pub fn callback_reply() -> (r: &'static str)
    ensures
        r@ == callback_reply_text(),
{
    "HTTP/1.1 200 OK\r\nContent-Type: text/html\r\nConnection: close\r\n\r\n<html><body><h1>Authentication successful!</h1><p>You can close this window and return to your terminal.</p></body></html>"
}

/// The message of a callback without a code.
pub open spec fn callback_error_message(e: CallbackErrorView) -> Seq<char> {
    match e {
        CallbackErrorView::EmptyRequest => "Empty HTTP request received"@,
        CallbackErrorView::MalformedRequestLine => "Malformed HTTP request line"@,
        CallbackErrorView::Denied { error } => "Spotify OAuth error: "@ + error,
        CallbackErrorView::MissingCode => "No authorization code in callback URL"@,
    }
}

impl CallbackError {
    pub fn message(&self) -> (r: String)
        ensures
            r@ == callback_error_message(self@),
    {
        match self {
            CallbackError::EmptyRequest => String::from_str("Empty HTTP request received"),
            CallbackError::MalformedRequestLine => String::from_str("Malformed HTTP request line"),
            CallbackError::Denied { error } => {
                let mut m = String::from_str("Spotify OAuth error: ");
                m.append(error.as_str());
                m
            },
            CallbackError::MissingCode => String::from_str("No authorization code in callback URL"),
        }
    }
}

} // verus!
