//! Encoding a response onto the wire: a status line, a `Content-Type` and
//! `Content-Length` header pair, a blank line, and a JSON body.  The JSON
//! encoding is written out here byte for byte: object scaffolding from
//! fixed pieces, strings escaped, numbers in decimal.

use vstd::prelude::*;
use crate::bytes::push_all;
use crate::text::content_headers;
use crate::text::crlf;
use crate::text::http_prefix;
use crate::text::jclose;
use crate::text::jclose_list;
use crate::text::jcomma;
use crate::text::jfalse;
use crate::text::jnull;
use crate::text::jopen_error;
use crate::text::jopen_list;
use crate::text::jopen_log;
use crate::text::jopen_ok;
use crate::text::jopen_user;
use crate::text::jstatus_online;
use crate::text::jstatus_since;
use crate::text::jstatus_text;
use crate::text::jtrue;
use crate::text::juser_status;
use crate::text::juser_username;
use crate::text::line_bad;
use crate::text::line_not_found;
use crate::text::line_ok;
use crate::text::line_server_error;
use crate::text::line_unauth;
use crate::text::spec_content_headers;
use crate::text::spec_crlf;
use crate::text::spec_http_prefix;
use crate::text::spec_jclose;
use crate::text::spec_jclose_list;
use crate::text::spec_jcomma;
use crate::text::spec_jfalse;
use crate::text::spec_jnull;
use crate::text::spec_jopen_error;
use crate::text::spec_jopen_list;
use crate::text::spec_jopen_log;
use crate::text::spec_jopen_ok;
use crate::text::spec_jopen_user;
use crate::text::spec_jstatus_online;
use crate::text::spec_jstatus_since;
use crate::text::spec_jstatus_text;
use crate::text::spec_jtrue;
use crate::text::spec_juser_status;
use crate::text::spec_juser_username;
use crate::text::spec_line_bad;
use crate::text::spec_line_not_found;
use crate::text::spec_line_ok;
use crate::text::spec_line_server_error;
use crate::text::spec_line_unauth;
use crate::userlist::JSONStatus;
use crate::userlist::JSONStatusV;
use crate::userlist::UserInfo;
use crate::userlist::UserInfoV;
use crate::userlist::infos_v;

verus! {

/// The outcome of a request, as named on the status line.
#[derive(Clone, Copy, PartialEq, Eq, Structural, Debug)]
pub enum ResponseStatus {
    NotFound,
    Okay,
    Unauth,
    Bad,
    ServerError,
}

/// The status line each outcome produces.
pub open spec fn spec_status_line(s: ResponseStatus) -> Seq<u8> {
    match s {
        ResponseStatus::NotFound => spec_line_not_found(),
        ResponseStatus::Okay => spec_line_ok(),
        ResponseStatus::Unauth => spec_line_unauth(),
        ResponseStatus::Bad => spec_line_bad(),
        ResponseStatus::ServerError => spec_line_server_error(),
    }
}

impl ResponseStatus {
    /// The status line for this outcome.
    pub fn status_line(&self) -> (r: Vec<u8>)
        ensures
            r@ == spec_status_line(*self),
    {
        match self {
            ResponseStatus::NotFound => line_not_found(),
            ResponseStatus::Okay => line_ok(),
            ResponseStatus::Unauth => line_unauth(),
            ResponseStatus::Bad => line_bad(),
            ResponseStatus::ServerError => line_server_error(),
        }
    }
}

/// A lowercase hex digit for a value below 16.
pub open spec fn spec_hex_digit(n: u8) -> u8 {
    if n < 10 {
        (48 + n) as u8
    } else {
        (87 + n) as u8
    }
}

/// How one byte appears inside a JSON string: quote and backslash escaped,
/// control bytes as `\u00XX`, everything else as itself.
pub open spec fn spec_esc_byte(b: u8) -> Seq<u8> {
    if b == 34 {
        seq![92u8, 34u8]
    } else if b == 92 {
        seq![92u8, 92u8]
    } else if b < 32 {
        seq![92u8, 117u8, 48u8, 48u8, spec_hex_digit(b / 16), spec_hex_digit(b % 16)]
    } else {
        seq![b]
    }
}

/// A byte string escaped for a JSON string body.
pub open spec fn spec_json_escape(s: Seq<u8>) -> Seq<u8>
    decreases s.len(),
{
    if s.len() == 0 {
        Seq::empty()
    } else {
        spec_esc_byte(s[0]) + spec_json_escape(s.drop_first())
    }
}

/// Escaping a string one byte longer appends that byte's escape.
pub proof fn lemma_json_escape_snoc(s: Seq<u8>, b: u8)
    ensures
        spec_json_escape(s.push(b)) == spec_json_escape(s) + spec_esc_byte(b),
    decreases s.len(),
{
    if s.len() == 0 {
        assert(s.push(b).drop_first() =~= Seq::<u8>::empty());
        assert(spec_json_escape(s.push(b).drop_first()) =~= Seq::<u8>::empty());
        assert(s.push(b)[0] == b);
        assert(spec_json_escape(s.push(b)) =~= spec_esc_byte(b));
        assert(spec_json_escape(s) + spec_esc_byte(b) =~= spec_esc_byte(b));
    } else {
        assert(s.push(b).drop_first() =~= s.drop_first().push(b));
        lemma_json_escape_snoc(s.drop_first(), b);
        assert(s.push(b)[0] == s[0]);
        assert(spec_json_escape(s) + spec_esc_byte(b) =~= spec_esc_byte(s[0]) + (spec_json_escape(
            s.drop_first(),
        ) + spec_esc_byte(b)));
    }
}

/// Appends the escaped form of `s`.
pub fn json_escape_push(out: &mut Vec<u8>, s: &[u8])
    ensures
        final(out)@ == old(out)@ + spec_json_escape(s@),
{
    let mut i: usize = 0;
    while i < s.len()
        invariant
            i <= s@.len(),
            out@ == old(out)@ + spec_json_escape(s@.take(i as int)),
        decreases s@.len() - i,
    {
        let b = s[i];
        proof {
            assert(s@.take(i as int).push(b) =~= s@.take(i + 1));
            lemma_json_escape_snoc(s@.take(i as int), b);
        }
        if b == 34 {
            out.push(92);
            out.push(34);
        } else if b == 92 {
            out.push(92);
            out.push(92);
        } else if b < 32 {
            out.push(92);
            out.push(117);
            out.push(48);
            out.push(48);
            let hi = b / 16;
            let lo = b % 16;
            out.push(if hi < 10 {
                48 + hi
            } else {
                87 + hi
            });
            out.push(if lo < 10 {
                48 + lo
            } else {
                87 + lo
            });
        } else {
            out.push(b);
        }
        proof {
            assert(out@ =~= old(out)@ + spec_json_escape(s@.take(i + 1)));
        }
        i = i + 1;
    }
    proof {
        assert(s@.take(s@.len() as int) =~= s@);
    }
}

/// A JSON string: quoted and escaped.
pub open spec fn spec_json_string(s: Seq<u8>) -> Seq<u8> {
    seq![34u8] + spec_json_escape(s) + seq![34u8]
}

/// Appends the JSON string for `s`.
pub fn json_string_push(out: &mut Vec<u8>, s: &[u8])
    ensures
        final(out)@ == old(out)@ + spec_json_string(s@),
{
    out.push(34);
    json_escape_push(out, s);
    out.push(34);
    proof {
        assert(final(out)@ =~= old(out)@ + spec_json_string(s@));
    }
}

/// An optional text: a JSON string, or `null`.
pub open spec fn spec_json_text(t: Option<Seq<u8>>) -> Seq<u8> {
    match t {
        Some(s) => spec_json_string(s),
        None => spec_jnull(),
    }
}

/// Appends the optional text for `t`.
pub fn json_text_push(out: &mut Vec<u8>, t: &Option<Vec<u8>>)
    ensures
        final(out)@ == old(out)@ + spec_json_text(crate::userlist::opt_v(*t)),
{
    match t {
        Some(s) => json_string_push(out, s.as_slice()),
        None => push_all(out, jnull().as_slice()),
    }
}

/// The decimal digits of `n`.
pub open spec fn spec_dec_u64(n: u64) -> Seq<u8>
    decreases n,
{
    if n < 10 {
        seq![(48 + n) as u8]
    } else {
        spec_dec_u64(n / 10) + seq![(48 + n % 10) as u8]
    }
}

/// Appends the decimal digits of `n`.
pub fn dec_u64_push(out: &mut Vec<u8>, n: u64)
    ensures
        final(out)@ == old(out)@ + spec_dec_u64(n),
    decreases n,
{
    if n < 10 {
        out.push(48 + n as u8);
    } else {
        dec_u64_push(out, n / 10);
        out.push(48 + (n % 10) as u8);
        proof {
            assert(final(out)@ =~= old(out)@ + spec_dec_u64(n));
        }
    }
}

/// A status projection as a JSON object:
/// `{"online":B,"text":T,"since":N}`.
pub open spec fn spec_json_status(st: JSONStatusV) -> Seq<u8> {
    spec_jstatus_online() + (if st.online {
        spec_jtrue()
    } else {
        spec_jfalse()
    }) + spec_jstatus_text() + spec_json_text(st.text) + spec_jstatus_since() + spec_dec_u64(
        st.since,
    ) + spec_jclose()
}

/// Appends the JSON object for a status projection.
pub fn json_status_push(out: &mut Vec<u8>, st: &JSONStatus)
    ensures
        final(out)@ == old(out)@ + spec_json_status(st@),
{
    push_all(out, jstatus_online().as_slice());
    if st.online {
        push_all(out, jtrue().as_slice());
    } else {
        push_all(out, jfalse().as_slice());
    }
    push_all(out, jstatus_text().as_slice());
    json_text_push(out, &st.text);
    push_all(out, jstatus_since().as_slice());
    dec_u64_push(out, st.since);
    push_all(out, jclose().as_slice());
    proof {
        assert(final(out)@ =~= old(out)@ + spec_json_status(st@));
    }
}

/// A user projection as a JSON object:
/// `{"username":S,"status":{...}}`.
pub open spec fn spec_json_user_info(u: UserInfoV) -> Seq<u8> {
    spec_juser_username() + spec_json_string(u.username) + spec_juser_status() + spec_json_status(
        u.status,
    ) + spec_jclose()
}

/// Appends the JSON object for a user projection.
pub fn json_user_info_push(out: &mut Vec<u8>, u: &UserInfo)
    ensures
        final(out)@ == old(out)@ + spec_json_user_info(u@),
{
    push_all(out, juser_username().as_slice());
    json_string_push(out, u.username.as_slice());
    push_all(out, juser_status().as_slice());
    json_status_push(out, &u.status);
    push_all(out, jclose().as_slice());
    proof {
        assert(final(out)@ =~= old(out)@ + spec_json_user_info(u@));
    }
}

/// A comma-separated run of user projections.
pub open spec fn spec_json_items(items: Seq<UserInfoV>) -> Seq<u8>
    decreases items.len(),
{
    if items.len() == 0 {
        Seq::empty()
    } else {
        spec_json_user_info(items[0]) + spec_json_items_rest(items.drop_first())
    }
}

/// The continuation of a run: each further projection behind a comma.
pub open spec fn spec_json_items_rest(items: Seq<UserInfoV>) -> Seq<u8>
    decreases items.len(),
{
    if items.len() == 0 {
        Seq::empty()
    } else {
        spec_jcomma() + spec_json_user_info(items[0]) + spec_json_items_rest(items.drop_first())
    }
}

/// Appends the continuation of a run of projections.
pub fn json_items_rest_push(out: &mut Vec<u8>, items: &[UserInfo])
    ensures
        final(out)@ == old(out)@ + spec_json_items_rest(infos_v(items@)),
    decreases items@.len(),
{
    if items.len() == 0 {
        proof {
            assert(final(out)@ =~= old(out)@ + spec_json_items_rest(infos_v(items@)));
        }
    } else {
        push_all(out, jcomma().as_slice());
        json_user_info_push(out, &items[0]);
        let tail = &items[1..items.len()];
        proof {
            assert(infos_v(tail@) =~= infos_v(items@).drop_first());
        }
        json_items_rest_push(out, tail);
        proof {
            assert(final(out)@ =~= old(out)@ + spec_json_items_rest(infos_v(items@)));
        }
    }
}

/// Appends a run of projections.
pub fn json_items_push(out: &mut Vec<u8>, items: &[UserInfo])
    ensures
        final(out)@ == old(out)@ + spec_json_items(infos_v(items@)),
{
    if items.len() == 0 {
        proof {
            assert(final(out)@ =~= old(out)@ + spec_json_items(infos_v(items@)));
        }
    } else {
        json_user_info_push(out, &items[0]);
        let tail = &items[1..items.len()];
        proof {
            assert(infos_v(tail@) =~= infos_v(items@).drop_first());
        }
        json_items_rest_push(out, tail);
        proof {
            assert(final(out)@ =~= old(out)@ + spec_json_items(infos_v(items@)));
        }
    }
}

/// A response body: an error message, a confirmation, one user's
/// projection, the projections of every user, or a drained visitor log.
pub enum JSONResponse {
    Error(Vec<u8>),
    User(UserInfo),
    List(Vec<UserInfo>),
    OK(Vec<u8>),
    Log(Vec<UserInfo>),
}

/// The mathematical value of a `JSONResponse`.
#[verifier::ext_equal]
pub ghost enum JSONResponseV {
    Error(Seq<u8>),
    User(UserInfoV),
    List(Seq<UserInfoV>),
    OK(Seq<u8>),
    Log(Seq<UserInfoV>),
}

impl View for JSONResponse {
    type V = JSONResponseV;

    open spec fn view(&self) -> JSONResponseV {
        match self {
            JSONResponse::Error(m) => JSONResponseV::Error(m@),
            JSONResponse::User(u) => JSONResponseV::User(u@),
            JSONResponse::List(l) => JSONResponseV::List(infos_v(l@)),
            JSONResponse::OK(m) => JSONResponseV::OK(m@),
            JSONResponse::Log(l) => JSONResponseV::Log(infos_v(l@)),
        }
    }
}

/// A body serialized: a one-field object tagged with the variant; lists of
/// projections as arrays.
pub open spec fn spec_json_response(r: JSONResponseV) -> Seq<u8> {
    match r {
        JSONResponseV::Error(m) => spec_jopen_error() + spec_json_string(m) + spec_jclose(),
        JSONResponseV::OK(m) => spec_jopen_ok() + spec_json_string(m) + spec_jclose(),
        JSONResponseV::User(u) => spec_jopen_user() + spec_json_user_info(u) + spec_jclose(),
        JSONResponseV::List(l) => spec_jopen_list() + spec_json_items(l) + spec_jclose_list(),
        JSONResponseV::Log(l) => spec_jopen_log() + spec_json_items(l) + spec_jclose_list(),
    }
}

/// Serializes a body.
pub fn json_response_bytes(data: &JSONResponse) -> (r: Vec<u8>)
    ensures
        r@ == spec_json_response(data@),
{
    let mut out: Vec<u8> = Vec::new();
    match data {
        JSONResponse::Error(m) => {
            push_all(&mut out, jopen_error().as_slice());
            json_string_push(&mut out, m.as_slice());
            push_all(&mut out, jclose().as_slice());
        },
        JSONResponse::OK(m) => {
            push_all(&mut out, jopen_ok().as_slice());
            json_string_push(&mut out, m.as_slice());
            push_all(&mut out, jclose().as_slice());
        },
        JSONResponse::User(u) => {
            push_all(&mut out, jopen_user().as_slice());
            json_user_info_push(&mut out, u);
            push_all(&mut out, jclose().as_slice());
        },
        JSONResponse::List(l) => {
            push_all(&mut out, jopen_list().as_slice());
            json_items_push(&mut out, l.as_slice());
            push_all(&mut out, jclose_list().as_slice());
        },
        JSONResponse::Log(l) => {
            push_all(&mut out, jopen_log().as_slice());
            json_items_push(&mut out, l.as_slice());
            push_all(&mut out, jclose_list().as_slice());
        },
    }
    proof {
        assert(out@ =~= spec_json_response(data@));
    }
    out
}

/// A response ready for the wire: the status and the serialized body.
pub struct Response {
    pub status: ResponseStatus,
    pub body: Vec<u8>,
}

impl Response {
    /// Builds a response from a status and a body value, serializing the
    /// body.
    pub fn from(status: ResponseStatus, data: &JSONResponse) -> (r: Response)
        ensures
            r.status == status,
            r.body@ == spec_json_response(data@),
    {
        Response { status: status, body: json_response_bytes(data) }
    }
}

/// A whole response on the wire: status line, the `Content-Type` and
/// `Content-Length` pair, a blank line, then the body.
pub open spec fn spec_encode_response(st: ResponseStatus, body: Seq<u8>) -> Seq<u8> {
    spec_http_prefix() + spec_status_line(st) + spec_crlf() + spec_content_headers() + spec_dec_u64(
        body.len() as u64,
    ) + spec_crlf() + spec_crlf() + body
}

impl Response {
    /// Encodes the response for the wire, exactly as `spec_encode_response`
    /// lays it out; `Content-Length` is the body's length in decimal.
    pub fn encode(&self) -> (r: Vec<u8>)
        ensures
            r@ == spec_encode_response(self.status, self.body@),
    {
        let mut out: Vec<u8> = Vec::new();
        push_all(&mut out, http_prefix().as_slice());
        let line = self.status.status_line();
        push_all(&mut out, line.as_slice());
        push_all(&mut out, crlf().as_slice());
        push_all(&mut out, content_headers().as_slice());
        dec_u64_push(&mut out, self.body.len() as u64);
        push_all(&mut out, crlf().as_slice());
        push_all(&mut out, crlf().as_slice());
        push_all(&mut out, self.body.as_slice());
        proof {
            assert(out@ =~= spec_encode_response(self.status, self.body@));
        }
        out
    }
}

} // verus!
