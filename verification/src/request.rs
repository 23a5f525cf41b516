//! Decoding one request from the lines read off a connection: a request
//! line `METHOD PATH`, then header lines up to a blank line.  The accepted
//! method is `GET`; the path names an action and carries an optional query
//! string; only the `Authorization` header is consumed.

use vstd::prelude::*;
use crate::bytes::byte_is;
use crate::bytes::bytes_eq;
use crate::bytes::find_byte;
use crate::bytes::find_non_ws;
use crate::bytes::find_ws;
use crate::bytes::first_match;
use crate::bytes::non_ws_pred;
use crate::bytes::split_all;
use crate::bytes::split_bytes;
use crate::bytes::to_vec;
use crate::bytes::trim;
use crate::bytes::trim_bytes;
use crate::bytes::ws_pred;
use crate::text::act_bump;
use crate::text::act_check;
use crate::text::act_deregister;
use crate::text::act_finger;
use crate::text::act_list;
use crate::text::act_login;
use crate::text::act_logoff;
use crate::text::act_register;
use crate::text::err_bad_header;
use crate::text::err_bad_method;
use crate::text::err_bad_path;
use crate::text::err_bad_query;
use crate::text::err_missing_path;
use crate::text::err_unknown_action;
use crate::text::hdr_authorization;
use crate::text::key_key;
use crate::text::key_status;
use crate::text::key_user;
use crate::text::key_username;
use crate::text::spec_act_bump;
use crate::text::spec_act_check;
use crate::text::spec_act_deregister;
use crate::text::spec_act_finger;
use crate::text::spec_act_list;
use crate::text::spec_act_login;
use crate::text::spec_act_logoff;
use crate::text::spec_act_register;
use crate::text::spec_err_bad_header;
use crate::text::spec_err_bad_method;
use crate::text::spec_err_bad_path;
use crate::text::spec_err_bad_query;
use crate::text::spec_err_missing_path;
use crate::text::spec_err_unknown_action;
use crate::text::spec_hdr_authorization;
use crate::text::spec_key_key;
use crate::text::spec_key_status;
use crate::text::spec_key_user;
use crate::text::spec_key_username;
use crate::text::spec_tok_get;
use crate::text::tok_get;

verus! {

/// The eight actions a request can name.
#[derive(Clone, Copy, PartialEq, Eq, Structural, Debug)]
pub enum Action {
    Login,
    Logoff,
    Finger,
    Check,
    Bump,
    List,
    Register,
    Deregister,
}

/// Why a request failed to decode.
#[derive(Clone, Copy, PartialEq, Eq, Structural, Debug)]
pub enum ParseError {
    /// The request line has no method token, or one other than `GET`.
    BadMethod,
    /// The request line has no path token.
    MissingPath,
    /// The path does not start with `/`.
    BadPath,
    /// The action name is not one of the recognized eight.
    UnknownAction,
    /// A recognized query key comes without `=`.
    BadQueryPair,
    /// A header line has no `:`.
    BadHeader,
}

impl ParseError {
    /// The parse-failure message reported to a client.
    pub fn message(&self) -> (r: Vec<u8>)
        ensures
            r@ == spec_parse_error_message(*self),
    {
        match self {
            ParseError::BadMethod => err_bad_method(),
            ParseError::MissingPath => err_missing_path(),
            ParseError::BadPath => err_bad_path(),
            ParseError::UnknownAction => err_unknown_action(),
            ParseError::BadQueryPair => err_bad_query(),
            ParseError::BadHeader => err_bad_header(),
        }
    }
}

/// The message each decode failure carries.
pub open spec fn spec_parse_error_message(e: ParseError) -> Seq<u8> {
    match e {
        ParseError::BadMethod => spec_err_bad_method(),
        ParseError::MissingPath => spec_err_missing_path(),
        ParseError::BadPath => spec_err_bad_path(),
        ParseError::UnknownAction => spec_err_unknown_action(),
        ParseError::BadQueryPair => spec_err_bad_query(),
        ParseError::BadHeader => spec_err_bad_header(),
    }
}

/// The action a name denotes, matched case-sensitively.
pub open spec fn spec_action_of(name: Seq<u8>) -> Option<Action> {
    if name == spec_act_login() {
        Some(Action::Login)
    } else if name == spec_act_logoff() {
        Some(Action::Logoff)
    } else if name == spec_act_finger() {
        Some(Action::Finger)
    } else if name == spec_act_check() {
        Some(Action::Check)
    } else if name == spec_act_bump() {
        Some(Action::Bump)
    } else if name == spec_act_list() {
        Some(Action::List)
    } else if name == spec_act_register() {
        Some(Action::Register)
    } else if name == spec_act_deregister() {
        Some(Action::Deregister)
    } else {
        None
    }
}

/// Resolves an action name.
pub fn action_of(name: &[u8]) -> (r: Option<Action>)
    ensures
        r == spec_action_of(name@),
{
    if bytes_eq(name, act_login().as_slice()) {
        Some(Action::Login)
    } else if bytes_eq(name, act_logoff().as_slice()) {
        Some(Action::Logoff)
    } else if bytes_eq(name, act_finger().as_slice()) {
        Some(Action::Finger)
    } else if bytes_eq(name, act_check().as_slice()) {
        Some(Action::Check)
    } else if bytes_eq(name, act_bump().as_slice()) {
        Some(Action::Bump)
    } else if bytes_eq(name, act_list().as_slice()) {
        Some(Action::List)
    } else if bytes_eq(name, act_register().as_slice()) {
        Some(Action::Register)
    } else if bytes_eq(name, act_deregister().as_slice()) {
        Some(Action::Deregister)
    } else {
        None
    }
}

/// A decoded request: the action and the recognized query parameters, plus
/// the `Authorization` header if one was sent.
pub struct Request {
    pub action: Action,
    pub username: Option<Vec<u8>>,
    pub key: Option<Vec<u8>>,
    pub auth: Option<Vec<u8>>,
    pub finger_user: Option<Vec<u8>>,
    pub status: Option<Vec<u8>>,
}

/// The mathematical value of a `Request`.
#[verifier::ext_equal]
pub ghost struct RequestV {
    pub action: Action,
    pub username: Option<Seq<u8>>,
    pub key: Option<Seq<u8>>,
    pub auth: Option<Seq<u8>>,
    pub finger_user: Option<Seq<u8>>,
    pub status: Option<Seq<u8>>,
}

impl View for Request {
    type V = RequestV;

    open spec fn view(&self) -> RequestV {
        RequestV {
            action: self.action,
            username: crate::userlist::opt_v(self.username),
            key: crate::userlist::opt_v(self.key),
            auth: crate::userlist::opt_v(self.auth),
            finger_user: crate::userlist::opt_v(self.finger_user),
            status: crate::userlist::opt_v(self.status),
        }
    }
}

/// The recognized query parameters accumulated while scanning the query
/// string.
#[verifier::ext_equal]
pub ghost struct QueryV {
    pub username: Option<Seq<u8>>,
    pub key: Option<Seq<u8>>,
    pub user: Option<Seq<u8>>,
    pub status: Option<Seq<u8>>,
}

/// No query parameters yet.
pub open spec fn spec_query0() -> QueryV {
    QueryV { username: None, key: None, user: None, status: None }
}

/// `+` decoded to space, byte for byte.
pub open spec fn spec_plus_decode(s: Seq<u8>) -> Seq<u8> {
    Seq::new(s.len(), |i: int| if s[i] == 43 { 32u8 } else { s[i] })
}

/// Decodes `+` to space.
pub fn plus_decode(s: &[u8]) -> (r: Vec<u8>)
    ensures
        r@ == spec_plus_decode(s@),
{
    let mut r: Vec<u8> = Vec::new();
    let mut i: usize = 0;
    while i < s.len()
        invariant
            i <= s@.len(),
            r@.len() == i,
            forall|j: int| 0 <= j < i ==> r@[j] == spec_plus_decode(s@)[j],
        decreases s@.len() - i,
    {
        if s[i] == 43 {
            r.push(32);
        } else {
            r.push(s[i]);
        }
        i = i + 1;
    }
    proof {
        assert(r@ =~= spec_plus_decode(s@));
    }
    r
}

/// One `key=value` pair applied to the accumulated parameters.  The key is
/// what stands before the first `=`; the value what stands between the
/// first `=` and the next one, if any.  An unrecognized key is ignored; a
/// recognized key without `=` is a decode failure.  A `status` value has
/// `+` decoded to space.
pub open spec fn spec_apply_pair(q: QueryV, pair: Seq<u8>) -> Result<QueryV, ParseError> {
    let e = first_match(pair, byte_is(61));
    let k = pair.take(e);
    if k == spec_key_username() || k == spec_key_key() || k == spec_key_user() || k
        == spec_key_status() {
        if e == pair.len() {
            Err(ParseError::BadQueryPair)
        } else {
            let rest = pair.skip(e + 1);
            let v = rest.take(first_match(rest, byte_is(61)));
            if k == spec_key_username() {
                Ok(QueryV { username: Some(v), ..q })
            } else if k == spec_key_key() {
                Ok(QueryV { key: Some(v), ..q })
            } else if k == spec_key_user() {
                Ok(QueryV { user: Some(v), ..q })
            } else {
                Ok(QueryV { status: Some(spec_plus_decode(v)), ..q })
            }
        }
    } else {
        Ok(q)
    }
}

/// All pairs applied in order; the first failure wins.
pub open spec fn spec_apply_pairs(q: QueryV, pairs: Seq<Seq<u8>>) -> Result<QueryV, ParseError>
    decreases pairs.len(),
{
    if pairs.len() == 0 {
        Ok(q)
    } else {
        match spec_apply_pair(q, pairs[0]) {
            Err(e) => Err(e),
            Ok(q2) => spec_apply_pairs(q2, pairs.drop_first()),
        }
    }
}

/// A line that ends the header section.
pub open spec fn spec_is_blank_line(l: Seq<u8>) -> bool {
    l.len() == 0 || l == seq![10u8] || l == seq![13u8, 10u8]
}

/// Scans header lines from index `i` until a blank line or the end,
/// remembering the last `Authorization` value, trimmed.  The header key is
/// what stands before the first `:`; the value what stands between the
/// first `:` and the next one, if any.  A line without `:` is a decode
/// failure.
pub open spec fn spec_scan_headers(
    lines: Seq<Seq<u8>>,
    i: int,
    auth: Option<Seq<u8>>,
) -> Result<Option<Seq<u8>>, ParseError>
    decreases lines.len() - i,
{
    if i < 0 || i >= lines.len() || spec_is_blank_line(lines[i]) {
        Ok(auth)
    } else {
        let l = lines[i];
        let c = first_match(l, byte_is(58));
        if c == l.len() {
            Err(ParseError::BadHeader)
        } else {
            let rest = l.skip(c + 1);
            let v = trim_bytes(rest.take(first_match(rest, byte_is(58))));
            let auth2 = if l.take(c) == spec_hdr_authorization() {
                Some(v)
            } else {
                auth
            };
            spec_scan_headers(lines, i + 1, auth2)
        }
    }
}

/// The mathematical values of the lines handed to the decoder.
pub open spec fn lines_v(s: Seq<Vec<u8>>) -> Seq<Seq<u8>> {
    Seq::new(s.len(), |i: int| s[i]@)
}

/// The decode of a whole request, over the lines read off the connection:
/// `lines[0]` is the request line, the rest are header lines up to a blank
/// line.  The request line's first whitespace-separated token must be
/// `GET`; the second is the path, which must start with `/`; the part of
/// the path before any `?` names the action; between the first and second
/// `?` stands the query string, `&`-separated pairs as `spec_apply_pair`
/// reads them.  Tokens after the path are ignored.
pub open spec fn spec_parse(lines: Seq<Seq<u8>>) -> Result<RequestV, ParseError> {
    let line0 = if lines.len() == 0 {
        Seq::<u8>::empty()
    } else {
        lines[0]
    };
    let a1 = first_match(line0, non_ws_pred());
    if a1 == line0.len() {
        Err(ParseError::BadMethod)
    } else {
        let b1 = a1 + first_match(line0.skip(a1), ws_pred());
        if line0.subrange(a1, b1) != spec_tok_get() {
            Err(ParseError::BadMethod)
        } else {
            let r1 = line0.skip(b1);
            if first_match(r1, non_ws_pred()) == r1.len() {
                Err(ParseError::MissingPath)
            } else {
                let a2 = b1 + first_match(r1, non_ws_pred());
                let b2 = a2 + first_match(line0.skip(a2), ws_pred());
                let path = line0.subrange(a2, b2);
                if path[0] != 47 {
                    Err(ParseError::BadPath)
                } else {
                    let qix = first_match(path, byte_is(63));
                    match spec_action_of(path.subrange(1, qix)) {
                        None => Err(ParseError::UnknownAction),
                        Some(action) => {
                            let qres = if qix == path.len() {
                                Ok(spec_query0())
                            } else {
                                let after = path.skip(qix + 1);
                                let query = after.take(first_match(after, byte_is(63)));
                                spec_apply_pairs(spec_query0(), split_bytes(query, 38))
                            };
                            match qres {
                                Err(e) => Err(e),
                                Ok(q) => match spec_scan_headers(lines, 1, None) {
                                    Err(e) => Err(e),
                                    Ok(auth) => Ok(
                                        RequestV {
                                            action: action,
                                            username: q.username,
                                            key: q.key,
                                            auth: auth,
                                            finger_user: q.user,
                                            status: q.status,
                                        },
                                    ),
                                },
                            }
                        },
                    }
                }
            }
        }
    }
}


/// Whether a line ends the header section.
pub fn is_blank_line(line: &[u8]) -> (r: bool)
    ensures
        r == spec_is_blank_line(line@),
{
    let blank = line.len() == 0 || (line.len() == 1 && line[0] == 10) || (line.len() == 2 && line[0]
        == 13 && line[1] == 10);
    proof {
        if line.len() == 1 && line@[0] == 10 {
            assert(line@ =~= seq![10u8]);
        }
        if line.len() == 2 && line@[0] == 13 && line@[1] == 10 {
            assert(line@ =~= seq![13u8, 10u8]);
        }
        if !blank {
            assert(line@.len() != 0);
            assert(line@ != seq![10u8]);
            assert(line@ != seq![13u8, 10u8]);
        }
    }
    blank
}

impl Request {
    /// Decodes one request from the lines read off a connection, exactly as
    /// `spec_parse` describes: the decoded request on success, the decode
    /// failure otherwise.
    #[verifier::loop_isolation(false)]
    pub fn parse(lines: &Vec<Vec<u8>>) -> (r: Result<Request, ParseError>)
        ensures
            (match r {
                Ok(req) => spec_parse(lines_v(lines@)) == Ok::<RequestV, ParseError>(req@),
                Err(e) => spec_parse(lines_v(lines@)) == Err::<RequestV, ParseError>(e),
            }),
    {
        let ghost lv = lines_v(lines@);
        if lines.len() == 0 {
            proof {
                assert(first_match(Seq::<u8>::empty(), non_ws_pred()) == 0);
            }
            return Err(ParseError::BadMethod);
        }
        let line0: &[u8] = lines[0].as_slice();
        proof {
            assert(line0@ == lv[0]);
        }
        let a1 = find_non_ws(line0);
        if a1 == line0.len() {
            return Err(ParseError::BadMethod);
        }
        let rest1 = &line0[a1..line0.len()];
        proof {
            assert(rest1@ =~= line0@.skip(a1 as int));
        }
        let w1 = find_ws(rest1);
        let b1 = a1 + w1;
        let method = &line0[a1..b1];
        proof {
            assert(method@ =~= line0@.subrange(a1 as int, b1 as int));
        }
        if !bytes_eq(method, tok_get().as_slice()) {
            return Err(ParseError::BadMethod);
        }
        let r1 = &line0[b1..line0.len()];
        proof {
            assert(r1@ =~= line0@.skip(b1 as int));
        }
        let a2r = find_non_ws(r1);
        if a2r == r1.len() {
            return Err(ParseError::MissingPath);
        }
        let a2 = b1 + a2r;
        let rest2 = &line0[a2..line0.len()];
        proof {
            assert(rest2@ =~= line0@.skip(a2 as int));
        }
        let w2 = find_ws(rest2);
        let b2 = a2 + w2;
        let path = &line0[a2..b2];
        proof {
            assert(path@ =~= line0@.subrange(a2 as int, b2 as int));
            assert(line0@.skip(a2 as int)[0] == line0@[a2 as int]);
            assert(!crate::bytes::is_ws_b(line0@[a2 as int]));
            assert(w2 > 0);
            assert(path@.len() > 0);
        }
        if path[0] != 47 {
            return Err(ParseError::BadPath);
        }
        let qix = find_byte(path, 63);
        proof {
            assert(qix != 0);
        }
        let name = &path[1..qix];
        proof {
            assert(name@ =~= path@.subrange(1, qix as int));
        }
        let action = match action_of(name) {
            Some(a) => a,
            None => {
                return Err(ParseError::UnknownAction);
            },
        };
        let mut q_username: Option<Vec<u8>> = None;
        let mut q_key: Option<Vec<u8>> = None;
        let mut q_user: Option<Vec<u8>> = None;
        let mut q_status: Option<Vec<u8>> = None;
        let ghost mut pairsv: Seq<Seq<u8>> = Seq::empty();
        let ghost qres = (if qix == path@.len() {
            Ok::<QueryV, ParseError>(spec_query0())
        } else {
            let after = path@.skip(qix as int + 1);
            let query = after.take(first_match(after, byte_is(63)));
            spec_apply_pairs(spec_query0(), split_bytes(query, 38))
        });
        if qix != path.len() {
            let after = &path[qix + 1..path.len()];
            proof {
                assert(after@ =~= path@.skip(qix as int + 1));
            }
            let quix = find_byte(after, 63);
            let query = &after[0..quix];
            proof {
                assert(query@ =~= after@.take(quix as int));
            }
            let pairs = split_all(query, 38);
            proof {
                pairsv = split_bytes(query@, 38);
                assert(qres == spec_apply_pairs(spec_query0(), pairsv));
                assert(pairsv.skip(0) =~= pairsv);
            }
            let mut k: usize = 0;
            while k < pairs.len()
                invariant
                    k <= pairs@.len(),
                    pairs@.len() == pairsv.len(),
                    forall|t: int| 0 <= t < pairsv.len() ==> pairs@[t]@ == pairsv[t],
                    spec_apply_pairs(spec_query0(), pairsv) == spec_apply_pairs(
                        QueryV {
                            username: crate::userlist::opt_v(q_username),
                            key: crate::userlist::opt_v(q_key),
                            user: crate::userlist::opt_v(q_user),
                            status: crate::userlist::opt_v(q_status),
                        },
                        pairsv.skip(k as int),
                    ),
                decreases pairs@.len() - k,
            {
                let ghost qcur = QueryV {
                    username: crate::userlist::opt_v(q_username),
                    key: crate::userlist::opt_v(q_key),
                    user: crate::userlist::opt_v(q_user),
                    status: crate::userlist::opt_v(q_status),
                };
                proof {
                    assert(pairsv.skip(k as int)[0] == pairsv[k as int]);
                    assert(pairsv.skip(k as int).drop_first() =~= pairsv.skip(k as int + 1));
                }
                let pair: &[u8] = pairs[k].as_slice();
                proof {
                    assert(pair@ == pairsv[k as int]);
                }
                let e = find_byte(pair, 61);
                let kpart = &pair[0..e];
                proof {
                    assert(kpart@ =~= pair@.take(e as int));
                }
                let is_username = bytes_eq(kpart, key_username().as_slice());
                let is_key = bytes_eq(kpart, key_key().as_slice());
                let is_user = bytes_eq(kpart, key_user().as_slice());
                let is_status = bytes_eq(kpart, key_status().as_slice());
                if is_username || is_key || is_user || is_status {
                    if e == pair.len() {
                        proof {
                            assert(spec_apply_pair(qcur, pairsv[k as int]) == Err::<
                                QueryV,
                                ParseError,
                            >(ParseError::BadQueryPair));
                            assert(qres == Err::<QueryV, ParseError>(ParseError::BadQueryPair));
                        }
                        return Err(ParseError::BadQueryPair);
                    }
                    let vrest = &pair[e + 1..pair.len()];
                    proof {
                        assert(vrest@ =~= pair@.skip(e as int + 1));
                    }
                    let e2 = find_byte(vrest, 61);
                    let v = to_vec(&vrest[0..e2]);
                    proof {
                        assert(v@ =~= vrest@.take(e2 as int));
                    }
                    if is_username {
                        q_username = Some(v);
                    } else if is_key {
                        q_key = Some(v);
                    } else if is_user {
                        q_user = Some(v);
                    } else {
                        q_status = Some(plus_decode(v.as_slice()));
                    }
                    proof {
                        let qnew = QueryV {
                            username: crate::userlist::opt_v(q_username),
                            key: crate::userlist::opt_v(q_key),
                            user: crate::userlist::opt_v(q_user),
                            status: crate::userlist::opt_v(q_status),
                        };
                        assert(spec_apply_pair(qcur, pairsv[k as int]) == Ok::<
                            QueryV,
                            ParseError,
                        >(qnew));
                    }
                } else {
                    proof {
                        assert(spec_apply_pair(qcur, pairsv[k as int]) == Ok::<
                            QueryV,
                            ParseError,
                        >(qcur));
                    }
                }
                k = k + 1;
            }
            proof {
                assert(pairsv.skip(pairsv.len() as int) =~= Seq::<Seq<u8>>::empty());
            }
        }
        let ghost qfinal = QueryV {
            username: crate::userlist::opt_v(q_username),
            key: crate::userlist::opt_v(q_key),
            user: crate::userlist::opt_v(q_user),
            status: crate::userlist::opt_v(q_status),
        };
        proof {
            assert(qres == Ok::<QueryV, ParseError>(qfinal));
        }
        let mut auth: Option<Vec<u8>> = None;
        let mut i: usize = 1;
        while i < lines.len() && !is_blank_line(lines[i].as_slice())
            invariant
                1 <= i,
                spec_scan_headers(lv, 1, None) == spec_scan_headers(
                    lv,
                    i as int,
                    crate::userlist::opt_v(auth),
                ),
            decreases lines@.len() - i,
        {
            let ghost acur = crate::userlist::opt_v(auth);
            let line: &[u8] = lines[i].as_slice();
            proof {
                assert(line@ == lv[i as int]);
                assert(!spec_is_blank_line(lv[i as int]));
            }
            let c = find_byte(line, 58);
            if c == line.len() {
                proof {
                    assert(spec_scan_headers(lv, i as int, acur) == Err::<
                        Option<Seq<u8>>,
                        ParseError,
                    >(ParseError::BadHeader));
                }
                return Err(ParseError::BadHeader);
            }
            let hrest = &line[c + 1..line.len()];
            proof {
                assert(hrest@ =~= line@.skip(c as int + 1));
            }
            let c2 = find_byte(hrest, 58);
            let vslice = &hrest[0..c2];
            proof {
                assert(vslice@ =~= hrest@.take(c2 as int));
            }
            let v = trim(vslice);
            let hkey = &line[0..c];
            proof {
                assert(hkey@ =~= line@.take(c as int));
            }
            if bytes_eq(hkey, hdr_authorization().as_slice()) {
                auth = Some(v);
            }
            i = i + 1;
        }
        proof {
            assert(spec_scan_headers(lv, i as int, crate::userlist::opt_v(auth)) == Ok::<
                Option<Seq<u8>>,
                ParseError,
            >(crate::userlist::opt_v(auth)));
        }
        let req = Request {
            action: action,
            username: q_username,
            key: q_key,
            auth: auth,
            finger_user: q_user,
            status: q_status,
        };
        proof {
            assert(spec_parse(lv) == Ok::<RequestV, ParseError>(req@));
        }
        Ok(req)
    }
}

} // verus!
