//! What the commands that call the Web API share: the access token, and the
//! HTTP request that carries it.

use vstd::prelude::*;

verus! {

/// What reading the client's access token gave.
#[derive(Clone, Debug, PartialEq)]
pub enum TokenRead {
    /// The token's lock could not be taken.
    LockFailed,
    /// The client holds no token.
    Missing,
    /// The access token.
    Present(String),
}

pub enum TokenReadView {
    LockFailed,
    Missing,
    Present(Seq<char>),
}

impl View for TokenRead {
    type V = TokenReadView;

    open spec fn view(&self) -> TokenReadView {
        match self {
            TokenRead::LockFailed => TokenReadView::LockFailed,
            TokenRead::Missing => TokenReadView::Missing,
            TokenRead::Present(t) => TokenReadView::Present(t@),
        }
    }
}

/// The value of the `Authorization` header for an access token.
pub open spec fn bearer_of(token: Seq<char>) -> Seq<char> {
    "Bearer "@ + token
}

pub fn bearer(token: &str) -> (r: String)
    ensures
        r@ == bearer_of(token@),
{
    let mut r = String::from_str("Bearer ");
    r.append(token);
    r
}

/// The message when no access token can be had, `None` when there is one.
pub open spec fn token_failure(t: TokenReadView) -> Option<Seq<char>> {
    match t {
        TokenReadView::LockFailed => Some("Failed to acquire token lock"@),
        TokenReadView::Missing => Some("Not authenticated"@),
        TokenReadView::Present(_) => None,
    }
}

/// The message when no access token can be had.
pub fn token_failure_message(t: &TokenRead) -> (r: Option<String>)
    ensures
        match token_failure(t@) {
            Some(m) => r matches Some(s) && s@ == m,
            None => r is None,
        },
{
    match t {
        TokenRead::LockFailed => Some(String::from_str("Failed to acquire token lock")),
        TokenRead::Missing => Some(String::from_str("Not authenticated")),
        TokenRead::Present(_) => None,
    }
}

/// A `GET` request to the Web API.
#[derive(Clone, Debug, PartialEq)]
pub struct HttpGet {
    pub url: String,
    pub authorization: String,
    pub params: Vec<(String, String)>,
}

pub struct HttpGetView {
    pub url: Seq<char>,
    pub authorization: Seq<char>,
    pub params: Seq<(Seq<char>, Seq<char>)>,
}

impl View for HttpGet {
    type V = HttpGetView;

    open spec fn view(&self) -> HttpGetView {
        HttpGetView {
            url: self.url@,
            authorization: self.authorization@,
            params: self.params@.map_values(|p: (String, String)| (p.0@, p.1@)),
        }
    }
}

/// A playback control without an argument.
#[derive(Clone, Copy, Debug, PartialEq, Eq)]
pub enum Control {
    Pause,
    Skip,
}

/// The message when the player refuses a control; `detail` is the client's
/// own description of the failure.
pub open spec fn control_failure(c: Control, detail: Seq<char>) -> Seq<char> {
    match c {
        Control::Pause => "Failed to pause playback: "@ + detail,
        Control::Skip => "Failed to skip track: "@ + detail,
    }
}

impl Control {
    pub fn failure_message(self, detail: &str) -> (r: String)
        ensures
            r@ == control_failure(self, detail@),
    {
        match self {
            Control::Pause => joined("Failed to pause playback: ", detail),
            Control::Skip => joined("Failed to skip track: ", detail),
        }
    }
}

/// `a` followed by `b`.
pub fn joined(a: &str, b: &str) -> (r: String)
    ensures
        r@ == a@ + b@,
{
    let mut r = String::from_str(a);
    r.append(b);
    r
}

} // verus!
