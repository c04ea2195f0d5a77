//! The access token that the credentials file stores: rspotify's token, with
//! the plain values that the library reads of it.

use vstd::prelude::*;
use rspotify::model::Token;

verus! {

/// rspotify's access token, carried through the library unopened.
#[verifier::external_type_specification]
#[verifier::external_body]
pub struct ExToken(rspotify::model::Token);

/// What a token holds, as plain values: the access token, its lifetime in
/// seconds, when it expires (RFC 3339 text, where it says), the refresh
/// token, and the granted scopes.
pub struct TokenFields {
    pub access_token: Seq<char>,
    pub expires_in: i64,
    pub expires_at: Option<Seq<char>>,
    pub refresh_token: Option<Seq<char>>,
    pub scopes: Set<Seq<char>>,
}

/// What the text of a credentials file holds: `None` where serde_json reads
/// no rspotify token out of it; else the fields of the token it reads.
pub uninterp spec fn token_in_text(text: Seq<char>) -> Option<TokenFields>;

/// Unicode's `White_Space` characters, those of `char::is_whitespace`.
pub open spec fn is_white_space(c: char) -> bool {
    let n = c as int;
    ||| 0x9 <= n <= 0xd
    ||| n == 0x20 || n == 0x85 || n == 0xa0 || n == 0x1680
    ||| 0x2000 <= n <= 0x200a
    ||| n == 0x2028 || n == 0x2029 || n == 0x202f || n == 0x205f || n == 0x3000
}

/// Every scope is a word: not empty, and without white space.
pub open spec fn scopes_are_words(scopes: Set<Seq<char>>) -> bool {
    forall|w: Seq<char>| #[trigger] scopes.contains(w) ==> w.len() > 0 && forall|i: int|
        0 <= i < w.len() ==> !is_white_space(w[i])
}

/// `text`, written to the credentials file for a token with fields `t`,
/// reads back as a token with the same access token, lifetime, expiry and
/// refresh token, and with the same scopes where they are words (the scopes
/// are written joined by spaces).
pub open spec fn writes_token(text: Seq<char>, t: TokenFields) -> bool {
    &&& token_in_text(text) matches Some(u)
    &&& u.access_token == t.access_token
    &&& u.expires_in == t.expires_in
    &&& u.expires_at == t.expires_at
    &&& u.refresh_token == t.refresh_token
    &&& scopes_are_words(t.scopes) ==> u.scopes == t.scopes
}

/// An rspotify token together with the fields the library reads of it. Only
/// this module makes one, from the token itself, so the fields are always
/// those of the token.
#[derive(Debug)]
pub struct SavedToken {
    token: Token,
    access_token: String,
    expires_in: i64,
    expires_at: Option<String>,
    refresh_token: Option<String>,
    scopes: Vec<String>,
}

impl View for SavedToken {
    type V = TokenFields;

    closed spec fn view(&self) -> TokenFields {
        TokenFields {
            access_token: self.access_token@,
            expires_in: self.expires_in,
            expires_at: match self.expires_at {
                Some(e) => Some(e@),
                None => None,
            },
            refresh_token: match self.refresh_token {
                Some(r) => Some(r@),
                None => None,
            },
            scopes: self.scopes@.map_values(|s: String| s@).to_set(),
        }
    }
}

impl SavedToken {
    /// The rspotify token itself.
    pub closed spec fn raw(&self) -> Token {
        self.token
    }

    /// Wraps a token that the client holds.
    pub fn from_client(token: Token) -> (r: SavedToken)
        ensures
            r.raw() == token,
    {
        holding(token)
    }

    /// When the token expires, in RFC 3339, where it says.
    pub fn expires_at(&self) -> (r: Option<String>)
        ensures
            match r {
                Some(e) => self@.expires_at == Some(e@),
                None => self@.expires_at is None,
            },
    {
        match &self.expires_at {
            Some(e) => Some(e.clone()),
            None => None,
        }
    }

    /// Hands the rspotify token out, to be given to a client.
    pub fn into_token(self) -> (r: Token)
        ensures
            r == self.raw(),
    {
        self.token
    }
}

/// Reads the fields of an rspotify token: its access and refresh tokens, the
/// whole seconds of its lifetime (`num_seconds`), its expiry as RFC 3339
/// text (`to_rfc3339`) and its scopes. Trusted: the fields are taken from
/// `token` as the body shows; nothing about them is stated.
#[verifier::external_body]
fn holding(token: Token) -> (r: SavedToken)
    ensures
        r.raw() == token,
{
    let expires_at = match &token.expires_at {
        Some(at) => Some(at.to_rfc3339()),
        None => None,
    };
    let access_token = token.access_token.clone();
    let refresh_token = token.refresh_token.clone();
    let scopes: Vec<String> = token.scopes.iter().cloned().collect();
    let expires_in = token.expires_in.num_seconds();
    SavedToken { token, access_token, expires_in, expires_at, refresh_token, scopes }
}

/// Calls `serde_json::from_str::<rspotify::model::Token>` and reads the
/// token's fields as `holding` does. Trusted: the outcome depends on the text
/// alone (it is named `token_in_text`); the scopes come from splitting the
/// `scope` text at white space (`split_whitespace`), so each is a word.
#[verifier::external_body]
pub(crate) fn read_token_text(text: &str) -> (r: Option<SavedToken>)
    ensures
        match r {
            None => token_in_text(text@) is None,
            Some(t) => token_in_text(text@) == Some(t@) && scopes_are_words(t@.scopes),
        },
{
    let token: Token = match serde_json::from_str(text) {
        Ok(token) => token,
        Err(_) => return None,
    };
    let expires_at = match &token.expires_at {
        Some(at) => Some(at.to_rfc3339()),
        None => None,
    };
    let access_token = token.access_token.clone();
    let refresh_token = token.refresh_token.clone();
    let scopes: Vec<String> = token.scopes.iter().cloned().collect();
    let expires_in = token.expires_in.num_seconds();
    Some(SavedToken { token, access_token, expires_in, expires_at, refresh_token, scopes })
}

/// Calls `serde_json::to_string_pretty` on the rspotify token. Trusted: it
/// always succeeds (the token's `Serialize` writes strings, an integer, an
/// RFC 3339 time and the scopes joined by spaces, into memory), and the text
/// reads back as `writes_token` says. The text itself is not stated: the
/// scopes come out in the order of a hash set.
#[verifier::external_body]
pub(crate) fn pretty_text(t: &SavedToken) -> (r: Option<String>)
    ensures
        r is Some,
        writes_token(r->0@, t@),
{
    serde_json::to_string_pretty(&t.token).ok()
}

} // verus!
