//! Request construction: base-URL composition, the bearer header, and
//! the JSON-encoded sign-in body.
//!
//! A request is plain data: the surrounding program sends it, the
//! library only builds it, so what goes on the wire is pinned down
//! here, header and body included.

use vstd::prelude::*;
use vstd::string::{StringExecFns, StrSliceExecFns};

verus! {

/// The header value that authorizes a call with the given session token.
pub open spec fn spec_bearer(token: Seq<char>) -> Seq<char> {
    "Bearer "@ + token
}

/// One hexadecimal digit, for escaped control characters.
pub open spec fn spec_hex_digit(d: int) -> char {
    if d == 0 { '0' } else if d == 1 { '1' } else if d == 2 { '2' } else if d == 3 { '3' }
    else if d == 4 { '4' } else if d == 5 { '5' } else if d == 6 { '6' } else if d == 7 { '7' }
    else if d == 8 { '8' } else if d == 9 { '9' } else if d == 10 { 'a' } else if d == 11 { 'b' }
    else if d == 12 { 'c' } else if d == 13 { 'd' } else if d == 14 { 'e' } else { 'f' }
}

/// How one character reads inside a JSON string literal: quotes,
/// backslashes and control characters are escaped, everything else
/// stands as it is.
pub open spec fn spec_escape_char(c: char) -> Seq<char> {
    if c == '"' {
        seq!['\\', '"']
    } else if c == '\\' {
        seq!['\\', '\\']
    } else if c == '\n' {
        seq!['\\', 'n']
    } else if c == '\r' {
        seq!['\\', 'r']
    } else if c == '\t' {
        seq!['\\', 't']
    } else if (c as u32) < 32 {
        seq!['\\', 'u', '0', '0', spec_hex_digit(c as u32 as int / 16),
            spec_hex_digit(c as u32 as int % 16)]
    } else {
        seq![c]
    }
}

/// How a whole string reads inside a JSON string literal.
pub open spec fn spec_escape(s: Seq<char>) -> Seq<char>
    decreases s.len(),
{
    if s.len() == 0 {
        Seq::empty()
    } else {
        spec_escape_char(s[0]) + spec_escape(s.drop_first())
    }
}

/// The JSON body of the sign-in request, `{"apiKey": k, "apiSecret": s}`.
pub open spec fn spec_sign_in_body(api_key: Seq<char>, api_secret: Seq<char>) -> Seq<char> {
    "{\"apiKey\":\""@ + spec_escape(api_key) + "\",\"apiSecret\":\""@ + spec_escape(api_secret)
        + "\"}"@
}

proof fn lemma_escape_snoc(t: Seq<char>, c: char)
    ensures
        spec_escape(t.push(c)) == spec_escape(t) + spec_escape_char(c),
    decreases t.len(),
{
    if t.len() == 0 {
        assert(t.push(c).drop_first() =~= Seq::<char>::empty());
        assert(spec_escape(Seq::<char>::empty()) == Seq::<char>::empty());
        assert(t.push(c)[0] == c);
        assert(spec_escape(t.push(c)) == spec_escape_char(c) + Seq::<char>::empty());
        assert(spec_escape_char(c) + Seq::<char>::empty() =~= spec_escape_char(c));
        assert(spec_escape(t) + spec_escape_char(c) =~= spec_escape_char(c));
    } else {
        lemma_escape_snoc(t.drop_first(), c);
        assert(t.push(c).drop_first() =~= t.drop_first().push(c));
        assert(spec_escape(t.push(c)) =~= spec_escape(t) + spec_escape_char(c));
    }
}

/// Relies on `String: FromIterator<char>`: collecting characters yields
/// the string of exactly those characters, in order.
#[verifier::external_body]
fn chars_to_string(v: &Vec<char>) -> (r: String)
    ensures
        r@ == v@,
{
    v.iter().collect()
}

fn hex_digit(d: u8) -> (r: char)
    requires
        d < 16,
    ensures
        r == spec_hex_digit(d as int),
{
    if d == 0 { '0' } else if d == 1 { '1' } else if d == 2 { '2' } else if d == 3 { '3' }
    else if d == 4 { '4' } else if d == 5 { '5' } else if d == 6 { '6' } else if d == 7 { '7' }
    else if d == 8 { '8' } else if d == 9 { '9' } else if d == 10 { 'a' } else if d == 11 { 'b' }
    else if d == 12 { 'c' } else if d == 13 { 'd' } else if d == 14 { 'e' } else { 'f' }
}

/// Escapes a string for inclusion in a JSON string literal.
pub fn escape_json(s: &str) -> (r: String)
    ensures
        r@ == spec_escape(s@),
{
    let mut out: Vec<char> = Vec::new();
    let n: usize = s.unicode_len();
    proof {
        assert(s@.subrange(0, 0) =~= Seq::<char>::empty());
    }
    let mut i: usize = 0;
    while i < n
        invariant
            n == s@.len(),
            i <= n,
            out@ == spec_escape(s@.subrange(0, i as int)),
        decreases n - i,
    {
        let c = s.get_char(i);
        if c == '"' {
            out.push('\\');
            out.push('"');
        } else if c == '\\' {
            out.push('\\');
            out.push('\\');
        } else if c == '\n' {
            out.push('\\');
            out.push('n');
        } else if c == '\r' {
            out.push('\\');
            out.push('r');
        } else if c == '\t' {
            out.push('\\');
            out.push('t');
        } else if (c as u32) < 32 {
            let d: u32 = c as u32;
            out.push('\\');
            out.push('u');
            out.push('0');
            out.push('0');
            out.push(hex_digit((d / 16) as u8));
            out.push(hex_digit((d % 16) as u8));
        } else {
            out.push(c);
        }
        proof {
            lemma_escape_snoc(s@.subrange(0, i as int), s@[i as int]);
            assert(s@.subrange(0, i as int + 1) =~= s@.subrange(0, i as int).push(s@[i as int]));
            assert(out@ =~= spec_escape(s@.subrange(0, i as int)) + spec_escape_char(s@[i as int]));
        }
        i += 1;
    }
    proof {
        assert(s@.subrange(0, n as int) =~= s@);
    }
    chars_to_string(&out)
}

/// Builds the sign-in request body from the two credentials.
pub fn sign_in_body(api_key: &str, api_secret: &str) -> (r: String)
    ensures
        r@ == spec_sign_in_body(api_key@, api_secret@),
{
    let mut out = String::from_str("{\"apiKey\":\"");
    let ek = escape_json(api_key);
    out.append(ek.as_str());
    out.append("\",\"apiSecret\":\"");
    let es = escape_json(api_secret);
    out.append(es.as_str());
    out.append("\"}");
    proof {
        assert(out@ =~= spec_sign_in_body(api_key@, api_secret@));
    }
    out
}

/// Composes the full URL for a resource path under the service's base URL.
pub fn url(path: &str) -> (r: String)
    ensures
        r@ == crate::spec_base_url() + path@,
{
    let mut out = String::from_str("https://api.timeular.com/api/v3");
    out.append(path);
    out
}

/// Builds the `Authorization` header value for a session token.
pub fn auth(token: &str) -> (r: String)
    ensures
        r@ == spec_bearer(token@),
{
    let mut out = String::from_str("Bearer ");
    out.append(token);
    out
}

/// The HTTP method of a request this client issues.
#[derive(Debug, Clone, Copy, PartialEq, Eq, Structural)]
pub enum Method {
    Get,
    Post,
}

/// A request, as plain data, ready to be sent: the authorization
/// header is a single optional field, so a request carries the bearer
/// header either exactly once or not at all.
#[derive(Debug, Clone, PartialEq)]
pub struct HttpRequest {
    pub method: Method,
    pub url: String,
    pub authorization: Option<String>,
    pub body: Option<String>,
}

#[verifier::ext_equal]
pub struct RequestView {
    pub method: Method,
    pub url: Seq<char>,
    pub authorization: Option<Seq<char>>,
    pub body: Option<Seq<char>>,
}

impl View for HttpRequest {
    type V = RequestView;

    open spec fn view(&self) -> RequestView {
        RequestView {
            method: self.method,
            url: self.url@,
            authorization: match self.authorization {
                Some(a) => Some(a@),
                None => None,
            },
            body: match self.body {
                Some(b) => Some(b@),
                None => None,
            },
        }
    }
}

/// The sign-in request: a POST of the JSON-encoded credentials, with no
/// authorization header.
pub open spec fn spec_sign_in_request(api_key: Seq<char>, api_secret: Seq<char>) -> RequestView {
    RequestView {
        method: Method::Post,
        url: crate::spec_base_url() + "/developer/sign-in"@,
        authorization: None,
        body: Some(spec_sign_in_body(api_key, api_secret)),
    }
}

/// The profile fetch: a GET of `/me`, authorized with the bearer token.
pub open spec fn spec_me_request(token: Seq<char>) -> RequestView {
    RequestView {
        method: Method::Get,
        url: crate::spec_base_url() + "/me"@,
        authorization: Some(spec_bearer(token)),
        body: None,
    }
}

/// The spaces fetch: a GET of `/space`, authorized with the bearer token.
pub open spec fn spec_spaces_request(token: Seq<char>) -> RequestView {
    RequestView {
        method: Method::Get,
        url: crate::spec_base_url() + "/space"@,
        authorization: Some(spec_bearer(token)),
        body: None,
    }
}

/// The activities fetch: a GET of `/activities`, authorized with the
/// bearer token.
pub open spec fn spec_activities_request(token: Seq<char>) -> RequestView {
    RequestView {
        method: Method::Get,
        url: crate::spec_base_url() + "/activities"@,
        authorization: Some(spec_bearer(token)),
        body: None,
    }
}

/// Builds the sign-in request.
pub fn sign_in_request(api_key: &str, api_secret: &str) -> (r: HttpRequest)
    ensures
        r@ == spec_sign_in_request(api_key@, api_secret@),
{
    let r = HttpRequest {
        method: Method::Post,
        url: url("/developer/sign-in"),
        authorization: None,
        body: Some(sign_in_body(api_key, api_secret)),
    };
    proof {
        assert(r@ =~= spec_sign_in_request(api_key@, api_secret@));
    }
    r
}

/// Builds the profile fetch request.
pub fn me_request(token: &str) -> (r: HttpRequest)
    ensures
        r@ == spec_me_request(token@),
{
    let r = HttpRequest {
        method: Method::Get,
        url: url("/me"),
        authorization: Some(auth(token)),
        body: None,
    };
    proof {
        assert(r@ =~= spec_me_request(token@));
    }
    r
}

/// Builds the spaces fetch request.
pub fn spaces_request(token: &str) -> (r: HttpRequest)
    ensures
        r@ == spec_spaces_request(token@),
{
    let r = HttpRequest {
        method: Method::Get,
        url: url("/space"),
        authorization: Some(auth(token)),
        body: None,
    };
    proof {
        assert(r@ =~= spec_spaces_request(token@));
    }
    r
}

/// Builds the activities fetch request.
pub fn activities_request(token: &str) -> (r: HttpRequest)
    ensures
        r@ == spec_activities_request(token@),
{
    let r = HttpRequest {
        method: Method::Get,
        url: url("/activities"),
        authorization: Some(auth(token)),
        body: None,
    };
    proof {
        assert(r@ =~= spec_activities_request(token@));
    }
    r
}

} // verus!
