//! The local redirect-capture listener's pure half.
//!
//! Signing in through an external provider ends with the browser being
//! sent to a local loopback port, carrying the tokens in the URL
//! fragment.  The listener serves a fixed page whose script re-sends the
//! fragment as a query string, then watches the request lines that
//! arrive until one carries an `access_token`.  Everything here is pure:
//! page and response framing, request-line parsing, and the accumulated
//! parameter state; the caller owns the socket and feeds each request
//! line in.

use vstd::prelude::*;
use crate::decimal::{dec_str_of, usize_to_dec};
use crate::session::Session;
use crate::split::{pair_views, split_on, split_str, string_views};
use crate::user::User;

verus! {

/// The key and value of one query parameter: the text before the first
/// `=`, and the text between the first and second `=`.  A segment
/// without `=` carries no parameter.  No URL-decoding takes place.
pub open spec fn param_pair(segment: Seq<char>) -> Option<(Seq<char>, Seq<char>)> {
    let parts = split_on(segment, '=');
    if parts.len() >= 2 {
        Some((parts[0], parts[1]))
    } else {
        None
    }
}

/// The parameters carried by a list of query segments, in order.
pub open spec fn pairs_of(segments: Seq<Seq<char>>) -> Seq<(Seq<char>, Seq<char>)>
    decreases segments.len(),
{
    if segments.len() == 0 {
        Seq::empty()
    } else {
        (match param_pair(segments[0]) {
            Some(kv) => seq![kv],
            None => Seq::empty(),
        }) + pairs_of(segments.skip(1))
    }
}

/// The parameters of a query string: its `&`-separated segments, each
/// split at `=`.
pub open spec fn params_of(query: Seq<char>) -> Seq<(Seq<char>, Seq<char>)> {
    pairs_of(split_on(query, '&'))
}

/// The value bound to `key`, the latest binding winning, as it does in
/// a map filled by insertion.
pub open spec fn lookup(params: Seq<(Seq<char>, Seq<char>)>, key: Seq<char>) -> Option<Seq<char>>
    decreases params.len(),
{
    if params.len() == 0 {
        None
    } else if params[params.len() - 1].0 == key {
        Some(params[params.len() - 1].1)
    } else {
        lookup(params.drop_last(), key)
    }
}

/// The query part of a token callback request line: what follows
/// `GET /token?`, if the line starts so.
pub open spec fn token_query_of(line: Seq<char>) -> Option<Seq<char>> {
    if line.len() >= "GET /token?"@.len() && line.take("GET /token?"@.len() as int)
        == "GET /token?"@ {
        Some(line.skip("GET /token?"@.len() as int))
    } else {
        None
    }
}

/// The first line of a raw request: up to the first line feed, with a
/// trailing carriage return dropped.
pub open spec fn first_line_of(raw: Seq<char>) -> Seq<char> {
    let line = split_on(raw, '\n')[0];
    if line.len() > 0 && line[line.len() - 1] == '\r' {
        line.drop_last()
    } else {
        line
    }
}

/// Parses one `&`-separated query segment.
fn parse_param(segment: &str) -> (r: Option<(String, String)>)
    ensures
        (match r {
            Some(kv) => param_pair(segment@) == Some((kv.0@, kv.1@)),
            None => param_pair(segment@) is None,
        }),
{
    let mut parts = split_str(segment, '=');
    if parts.len() >= 2 {
        let value = parts.remove(1);
        let key = parts.remove(0);
        proof {
            assert(key@ == string_views(parts@.insert(0, key))[0]);
            assert(value@ == string_views(parts@.insert(0, key).insert(1, value))[1]);
        }
        Some((key, value))
    } else {
        None
    }
}

/// Parses a whole query string into its parameters, in order.
fn parse_params(query: &str) -> (r: Vec<(String, String)>)
    ensures
        pair_views(r@) == params_of(query@),
{
    let segments = split_str(query, '&');
    let mut out: Vec<(String, String)> = Vec::new();
    let mut i: usize = 0;
    proof {
        assert(string_views(segments@).skip(0) =~= string_views(segments@));
        assert(pair_views(out@) =~= Seq::<(Seq<char>, Seq<char>)>::empty());
        assert(pair_views(out@) + pairs_of(string_views(segments@)) =~= pairs_of(
            string_views(segments@),
        ));
    }
    while i < segments.len()
        invariant
            i <= segments@.len(),
            string_views(segments@) == split_on(query@, '&'),
            pair_views(out@) + pairs_of(string_views(segments@).skip(i as int)) == params_of(
                query@,
            ),
        decreases segments@.len() - i,
    {
        proof {
            assert(string_views(segments@).skip(i as int)[0] == segments@[i as int]@);
            assert(string_views(segments@).skip(i as int).skip(1) =~= string_views(
                segments@,
            ).skip(i as int + 1));
        }
        match parse_param(segments[i].as_str()) {
            Some(kv) => {
                out.push(kv);
                proof {
                    assert(pair_views(out@) =~= pair_views(out@.drop_last()) + seq![
                        (out@.last().0@, out@.last().1@),
                    ]);
                }
            },
            None => (),
        }
        proof {
            assert(pair_views(out@) + pairs_of(string_views(segments@).skip(i as int + 1))
                =~= params_of(query@));
        }
        i = i + 1;
    }
    proof {
        assert(string_views(segments@).skip(i as int) =~= Seq::<Seq<char>>::empty());
        assert(pair_views(out@) =~= params_of(query@));
    }
    out
}

/// Looks a key up among parsed parameters, the latest binding winning.
fn lookup_param(params: &Vec<(String, String)>, key: &str) -> (r: Option<String>)
    ensures
        (match r {
            Some(value) => lookup(pair_views(params@), key@) == Some(value@),
            None => lookup(pair_views(params@), key@) is None,
        }),
{
    let wanted: String = key.to_owned();
    let mut i: usize = params.len();
    proof {
        assert(pair_views(params@).take(params@.len() as int) =~= pair_views(params@));
    }
    while i > 0
        invariant
            i <= params@.len(),
            wanted@ == key@,
            lookup(pair_views(params@), key@) == lookup(
                pair_views(params@).take(i as int),
                key@,
            ),
        decreases i,
    {
        i = i - 1;
        proof {
            assert(pair_views(params@).take(i as int + 1).drop_last() =~= pair_views(
                params@,
            ).take(i as int));
            assert(pair_views(params@).take(i as int + 1).last() == pair_views(params@)[
                i as int
            ]);
        }
        if params[i].0 == wanted {
            return Some(params[i].1.clone());
        }
    }
    proof {
        assert(pair_views(params@).take(0) =~= Seq::<(Seq<char>, Seq<char>)>::empty());
    }
    None
}

/// Whether `s` starts with `prefix`.
fn has_prefix(s: &str, prefix: &str) -> (r: bool)
    ensures
        r == (s@.len() >= prefix@.len() && s@.take(prefix@.len() as int) == prefix@),
{
    let n = s.unicode_len();
    let m = prefix.unicode_len();
    if n < m {
        return false;
    }
    let mut i: usize = 0;
    while i < m
        invariant
            i <= m,
            m <= n,
            m == prefix@.len(),
            n == s@.len(),
            forall|j: int| 0 <= j < i ==> s@[j] == prefix@[j],
        decreases m - i,
    {
        if s.get_char(i) != prefix.get_char(i) {
            proof {
                assert(s@.take(m as int)[i as int] == s@[i as int]);
            }
            return false;
        }
        i = i + 1;
    }
    proof {
        assert(s@.take(m as int) =~= prefix@);
    }
    true
}

/// Extracts the first line of a raw request.
pub fn first_line(raw: &str) -> (r: String)
    ensures
        r@ == first_line_of(raw@),
{
    let lines = split_str(raw, '\n');
    proof {
        assert(split_on(raw@, '\n').len() >= 1);
    }
    let line: &String = &lines[0];
    let len = line.as_str().unicode_len();
    if len > 0 && line.as_str().get_char(len - 1) == '\r' {
        let trimmed = line.as_str().substring_char(0, len - 1);
        proof {
            assert(trimmed@ =~= first_line_of(raw@));
        }
        trimmed.to_owned()
    } else {
        line.clone()
    }
}

/// The accumulated query parameters seen by the redirect listener.
#[derive(Debug)]
pub struct RedirectCapture {
    pub params: Vec<(String, String)>,
}

impl RedirectCapture {
    /// The views of the accumulated parameters.
    pub open spec fn params_view(self) -> Seq<(Seq<char>, Seq<char>)> {
        pair_views(self.params@)
    }

    /// A listener state that has seen nothing yet.
    pub fn new() -> (r: RedirectCapture)
        ensures
            r.params_view() == Seq::<(Seq<char>, Seq<char>)>::empty(),
    {
        let r = RedirectCapture { params: Vec::new() };
        proof {
            assert(r.params_view() =~= Seq::<(Seq<char>, Seq<char>)>::empty());
        }
        r
    }

    /// Feeds one request line in.  A token callback line has its query
    /// parameters appended to the accumulated state; any other line is
    /// ignored.  Returns whether an `access_token` parameter has now
    /// been seen, which ends the listening loop.
    pub fn offer_request_line(&mut self, line: &str) -> (captured: bool)
        ensures
            (match token_query_of(line@) {
                Some(query) => final(self).params_view() == old(self).params_view()
                    + params_of(query) && captured == (lookup(
                    final(self).params_view(),
                    "access_token"@,
                ) is Some),
                None => *final(self) == *old(self) && !captured,
            }),
    {
        if !has_prefix(line, "GET /token?") {
            return false;
        }
        let m = "GET /token?".unicode_len();
        let n = line.unicode_len();
        let query = line.substring_char(m, n);
        proof {
            assert(query@ =~= line@.skip(m as int));
        }
        let mut fresh = parse_params(query);
        let ghost old_params = self.params@;
        let ghost fresh_params = fresh@;
        self.params.append(&mut fresh);
        proof {
            assert(pair_views(old_params + fresh_params) =~= pair_views(old_params)
                + pair_views(fresh_params));
        }
        match lookup_param(&self.params, "access_token") {
            Some(_) => true,
            None => false,
        }
    }

    /// The captured tokens: the values bound to `access_token` and
    /// `refresh_token`, when both have been seen.
    pub fn captured_tokens(&self) -> (r: Option<(String, String)>)
        ensures
            (match r {
                Some(tokens) => lookup(self.params_view(), "access_token"@) == Some(tokens.0@)
                    && lookup(self.params_view(), "refresh_token"@) == Some(tokens.1@),
                None => lookup(self.params_view(), "access_token"@) is None || lookup(
                    self.params_view(),
                    "refresh_token"@,
                ) is None,
            }),
    {
        let access = lookup_param(&self.params, "access_token");
        let refresh = lookup_param(&self.params, "refresh_token");
        match (access, refresh) {
            (Some(a), Some(b)) => Some((a, b)),
            _ => None,
        }
    }
}

/// The fixed page served to the browser: its script re-sends the URL
/// fragment to the listener as a query string.
pub open spec fn redirect_page_text() -> Seq<char> {
    "<script>fetch(`http://localhost:6969/token?${window.location.hash.replace('#','')})`)</script><h1>GoTrue-Rs</h1><h2>Signin sent to program.</h2><h3>You may close this tab.</h3>"@
}

/// The page the listener serves on every connection.
pub fn redirect_page() -> (r: &'static str)
    ensures
        r@ == redirect_page_text(),
{
    "<script>fetch(`http://localhost:6969/token?${window.location.hash.replace('#','')})`)</script><h1>GoTrue-Rs</h1><h2>Signin sent to program.</h2><h3>You may close this tab.</h3>"
}

/// Frames a body as a complete HTTP success response, with its byte
/// length as the content length.
pub fn http_ok_response(body: &str) -> (r: String)
    ensures
        r@ == "HTTP/1.1 200 OK\r\ncontent-length: "@ + dec_str_of(body.len() as nat)
            + "\r\n\r\n"@ + body@,
{
    let rendered_length = usize_to_dec(body.len());
    let mut out = String::new();
    out.append("HTTP/1.1 200 OK\r\ncontent-length: ");
    out.append(rendered_length.as_str());
    out.append("\r\n\r\n");
    out.append(body);
    proof {
        assert(out@ =~= "HTTP/1.1 200 OK\r\ncontent-length: "@ + dec_str_of(body.len() as nat)
            + "\r\n\r\n"@ + body@);
    }
    out
}

/// Assembles the session a provider sign-in yields from the captured
/// tokens and the fetched user.
pub fn provider_session(access_token: String, refresh_token: String, user: User) -> (r: Session)
    ensures
        r.access_token@ == access_token@,
        r.refresh_token@ == refresh_token@,
        r.token_type@ == "JWT"@,
        r.expires_in == 3600,
        r.user == user,
{
    Session {
        access_token,
        token_type: "JWT".to_owned(),
        expires_in: 3600,
        refresh_token,
        user,
    }
}

} // verus!
