//! The command dispatcher: one handler per action, each mapping a decoded
//! request and the registry's state to a response, under one exclusive
//! holder of the whole state.  Mutations of the backing store go through a
//! two-step protocol: the handler returns the records to persist, and the
//! state changes only when the caller confirms the write succeeded.

use vstd::prelude::*;
use crate::bytes::to_vec;
use crate::hashing::sha256_hex_of;
use crate::request::Action;
use crate::request::ParseError;
use crate::request::Request;
use crate::request::RequestV;
use crate::response::JSONResponse;
use crate::response::JSONResponseV;
use crate::response::Response;
use crate::response::ResponseStatus;
use crate::response::spec_json_response;
use crate::text::msg_invalid_user_or_key;
use crate::text::msg_missing_key;
use crate::text::msg_missing_username;
use crate::text::msg_unknown_username;
use crate::text::spec_msg_invalid_user_or_key;
use crate::text::spec_msg_missing_key;
use crate::text::spec_msg_missing_username;
use crate::text::spec_msg_unknown_username;
use crate::text::msg_logged_on;
use crate::text::msg_logged_off;
use crate::text::spec_msg_logged_on;
use crate::text::spec_msg_logged_off;
use crate::text::msg_user_not_found;
use crate::text::spec_msg_user_not_found;
use crate::userlist::StoredUser;
use crate::userlist::StoredUserV;
use crate::userlist::UserList;
use crate::userlist::UserV;
use crate::userlist::has_name;
use crate::userlist::has_stored;
use crate::userlist::ix_of;
use crate::userlist::lemma_same_names_iff;
use crate::userlist::spec_set_status;
use crate::userlist::store_v;
use crate::userlist::unique_stored;
use crate::userlist::JSONStatusV;
use crate::userlist::UserInfo;
use crate::userlist::UserInfoV;
use crate::userlist::JSONStatus;
use crate::userlist::infos_v;
use crate::userlist::spec_add_log;
use crate::userlist::spec_status_projection;
use crate::text::anonymous_name;
use crate::text::spec_anonymous_name;
use crate::text::msg_user_required;
use crate::text::spec_msg_user_required;
use crate::text::msg_bumped;
use crate::text::spec_msg_bumped;
use crate::text::msg_no_registration;
use crate::text::spec_msg_no_registration;
use crate::text::msg_username_required_reg;
use crate::text::spec_msg_username_required_reg;
use crate::text::msg_bad_reg_key;
use crate::text::spec_msg_bad_reg_key;
use crate::text::msg_taken;
use crate::text::spec_msg_taken;
use crate::text::msg_password_required;
use crate::text::spec_msg_password_required;
use crate::text::msg_registered;
use crate::text::spec_msg_registered;
use crate::text::msg_removed;
use crate::text::spec_msg_removed;
use crate::bytes::bytes_eq;
use crate::hashing::sha256_hex;
use crate::request::spec_parse_error_message;
use crate::userlist::clone_store;
use crate::userlist::loaded_user;
use crate::userlist::spec_loaded;
use crate::userlist::spec_stored_new;
use crate::userlist::store_find_ix;
use crate::userlist::ix_of_stored;
use crate::userlist::lemma_ix_of_stored;
use crate::userlist::lemma_push_name;
use crate::userlist::lemma_stored_push_name;
use crate::userlist::lemma_remove_name;
use crate::userlist::lemma_stored_remove_name;

verus! {

/// The server's standing configuration, as the dispatcher reads it.
pub struct Config {
    /// The address the listener binds, as text.
    pub socket_path: Vec<u8>,
    /// Where the backing store lives, as a path in text.
    pub users_list: Vec<u8>,
    /// Whether registration is open.
    pub registration: bool,
    /// The server-wide registration key, if one is required.
    pub auth_key: Option<Vec<u8>>,
    /// Where the process lock file lives, as a path in text.
    pub lock: Vec<u8>,
}

/// The server state a dispatcher works on: configuration, the registry,
/// and the model of the backing store's records.
pub struct Fingr {
    pub config: Config,
    pub users: UserList,
    pub store: Vec<StoredUser>,
}

/// The credential accompanying a request: the `Authorization` header if one
/// was sent, else the `key` query parameter.
pub open spec fn spec_credential(req: RequestV) -> Option<Seq<u8>> {
    if req.auth is Some {
        req.auth
    } else {
        req.key
    }
}

/// How authentication went: the authenticated username, or the refusal to
/// send back.
#[verifier::ext_equal]
pub ghost enum AuthV {
    Granted(Seq<u8>),
    Denied(ResponseStatus, Seq<u8>),
}

/// The authentication rule: the request must name a username and carry a
/// credential; the username must be registered; the credential's digest
/// must match the record's.  Each failure names its own status and message.
pub open spec fn spec_check_key(users: Seq<UserV>, req: RequestV) -> AuthV {
    match req.username {
        None => AuthV::Denied(ResponseStatus::Bad, spec_msg_missing_username()),
        Some(name) => match spec_credential(req) {
            None => AuthV::Denied(ResponseStatus::Unauth, spec_msg_missing_key()),
            Some(cred) => if !has_name(users, name) {
                AuthV::Denied(ResponseStatus::NotFound, spec_msg_unknown_username())
            } else if sha256_hex_of(cred) == users[ix_of(users, name)].hash {
                AuthV::Granted(name)
            } else {
                AuthV::Denied(ResponseStatus::Unauth, spec_msg_invalid_user_or_key())
            },
        },
    }
}

/// An authentication outcome with the refusal already encoded.
pub enum Auth {
    Granted(Vec<u8>),
    Denied(Response),
}

impl Fingr {
    /// The dispatcher's invariant: the registry is well formed, the store's
    /// names are unique, and a name is registered exactly when the store
    /// lists it.
    pub open spec fn wf(&self) -> bool {
        &&& self.users.wf()
        &&& unique_stored(store_v(self.store@))
        &&& forall|n: Seq<u8>| #![auto]
            has_name(self.users@, n) <==> has_stored(store_v(self.store@), n)
    }

    /// Authenticates a request against the registry, exactly as
    /// `spec_check_key` rules.
    pub fn check_key(&self, req: &Request) -> (r: Auth)
        requires
            self.wf(),
        ensures
            (match r {
                Auth::Granted(n) => spec_check_key(self.users@, req@) == AuthV::Granted(n@),
                Auth::Denied(resp) => ({
                    &&& spec_check_key(self.users@, req@) matches AuthV::Denied(st, m)
                    &&& resp.status == st
                    &&& resp.body@ == spec_json_response(JSONResponseV::Error(m))
                }),
            }),
    {
        let name = match &req.username {
            Some(n) => n,
            None => {
                return Auth::Denied(
                    Response::from(
                        ResponseStatus::Bad,
                        &JSONResponse::Error(msg_missing_username()),
                    ),
                );
            },
        };
        let cred = match &req.auth {
            Some(a) => a,
            None => match &req.key {
                Some(k) => k,
                None => {
                    return Auth::Denied(
                        Response::from(
                            ResponseStatus::Unauth,
                            &JSONResponse::Error(msg_missing_key()),
                        ),
                    );
                },
            },
        };
        match self.users.lookup(name.as_slice()) {
            None => Auth::Denied(
                Response::from(
                    ResponseStatus::NotFound,
                    &JSONResponse::Error(msg_unknown_username()),
                ),
            ),
            Some(u) => {
                if u.compare_key(cred.as_slice()) {
                    Auth::Granted(to_vec(name.as_slice()))
                } else {
                    Auth::Denied(
                        Response::from(
                            ResponseStatus::Unauth,
                            &JSONResponse::Error(msg_invalid_user_or_key()),
                        ),
                    )
                }
            },
        }
    }
}

/// What `login` and `logoff` leave behind: on refusal, the registry as it
/// was and the refusal's response; on success, the named user's status set
/// as `spec_set_status` says and a fixed confirmation.
pub open spec fn post_change_online(
    pre: Seq<UserV>,
    post: Seq<UserV>,
    req: RequestV,
    online: bool,
    now: u64,
    st: ResponseStatus,
    body: Seq<u8>,
) -> bool {
    match spec_check_key(pre, req) {
        AuthV::Denied(ds, m) => post == pre && st == ds && body == spec_json_response(
            JSONResponseV::Error(m),
        ),
        AuthV::Granted(name) => {
            &&& post =~= pre.update(
                ix_of(pre, name),
                spec_set_status(pre[ix_of(pre, name)], online, req.status, now),
            )
            &&& st == ResponseStatus::Okay
            &&& body == spec_json_response(
                JSONResponseV::OK(
                    if online {
                        spec_msg_logged_on()
                    } else {
                        spec_msg_logged_off()
                    },
                ),
            )
        },
    }
}

impl Fingr {
    /// Logs the authenticated user on or off: their status becomes the
    /// requested flag with the requested text (or their previous text) and
    /// `since = now`.
    pub fn change_online_status(&mut self, req: &Request, online: bool, now: u64) -> (r: Response)
        requires
            old(self).wf(),
        ensures
            final(self).wf(),
            final(self).store@ == old(self).store@,
            final(self).config == old(self).config,
            post_change_online(
                old(self).users@,
                final(self).users@,
                req@,
                online,
                now,
                r.status,
                r.body@,
            ),
    {
        let username = match self.check_key(req) {
            Auth::Granted(n) => n,
            Auth::Denied(resp) => {
                return resp;
            },
        };
        let text = crate::userlist::clone_opt_bytes(&req.status);
        let hit = self.users.set_status(username.as_slice(), online, text, now);
        proof {
            if hit {
                lemma_same_names_iff(old(self).users@, self.users@);
            }
        }
        if hit {
            if online {
                Response::from(ResponseStatus::Okay, &JSONResponse::OK(msg_logged_on()))
            } else {
                Response::from(ResponseStatus::Okay, &JSONResponse::OK(msg_logged_off()))
            }
        } else {
            // Authentication just found the user, so under one exclusive
            // holder this cannot happen; answer as the protocol specifies.
            proof {
                assert(false);
            }
            Response::from(ResponseStatus::NotFound, &JSONResponse::Error(msg_user_not_found()))
        }
    }

    /// `login`: sets the authenticated user online.
    pub fn login(&mut self, req: &Request, now: u64) -> (r: Response)
        requires
            old(self).wf(),
        ensures
            final(self).wf(),
            final(self).store@ == old(self).store@,
            final(self).config == old(self).config,
            post_change_online(
                old(self).users@,
                final(self).users@,
                req@,
                true,
                now,
                r.status,
                r.body@,
            ),
    {
        self.change_online_status(req, true, now)
    }

    /// `logoff`: sets the authenticated user offline.
    pub fn logoff(&mut self, req: &Request, now: u64) -> (r: Response)
        requires
            old(self).wf(),
        ensures
            final(self).wf(),
            final(self).store@ == old(self).store@,
            final(self).config == old(self).config,
            post_change_online(
                old(self).users@,
                final(self).users@,
                req@,
                false,
                now,
                r.status,
                r.body@,
            ),
    {
        self.change_online_status(req, false, now)
    }
}


/// The projection of the user at index `i`, at time `now`.
pub open spec fn spec_projection_at(users: Seq<UserV>, i: int, now: u64) -> UserInfoV {
    UserInfoV {
        username: users[i].username,
        status: spec_status_projection(users[i].status, now),
    }
}

/// The projections of every registered user, in registry order.
pub open spec fn spec_projections(users: Seq<UserV>, now: u64) -> Seq<UserInfoV> {
    Seq::new(users.len(), |i: int| spec_projection_at(users, i, now))
}

/// The visitor a `finger` logs on its target: the authenticated caller's
/// own projection, or — when authentication did not go through — the
/// anonymous visitor with the default offline status.
pub open spec fn spec_visitor(users: Seq<UserV>, req: RequestV, now: u64) -> UserInfoV {
    match spec_check_key(users, req) {
        AuthV::Granted(name) => spec_projection_at(users, ix_of(users, name), now),
        AuthV::Denied(_, _) => UserInfoV {
            username: spec_anonymous_name(),
            status: JSONStatusV { online: false, text: None, since: 0 },
        },
    }
}

/// What `finger` leaves behind: with no target named, a refusal and no
/// change; with an unknown target, `NotFound` and no change; otherwise the
/// visitor's projection appended to the target's log and the target's own
/// projection returned.
pub open spec fn post_finger(
    pre: Seq<UserV>,
    post: Seq<UserV>,
    req: RequestV,
    now: u64,
    st: ResponseStatus,
    body: Seq<u8>,
) -> bool {
    match req.finger_user {
        None => post == pre && st == ResponseStatus::Bad && body == spec_json_response(
            JSONResponseV::Error(spec_msg_user_required()),
        ),
        Some(t) => if !has_name(pre, t) {
            post == pre && st == ResponseStatus::NotFound && body == spec_json_response(
                JSONResponseV::Error(spec_msg_user_not_found()),
            )
        } else {
            &&& post =~= pre.update(
                ix_of(pre, t),
                UserV {
                    log: spec_add_log(pre[ix_of(pre, t)].log, spec_visitor(pre, req, now)),
                    ..pre[ix_of(pre, t)]
                },
            )
            &&& st == ResponseStatus::Okay
            &&& body == spec_json_response(
                JSONResponseV::User(spec_projection_at(pre, ix_of(pre, t), now)),
            )
        },
    }
}

/// What `check` leaves behind: on refusal, no change; otherwise the
/// authenticated user's log drained and returned.
pub open spec fn post_check(
    pre: Seq<UserV>,
    post: Seq<UserV>,
    req: RequestV,
    st: ResponseStatus,
    body: Seq<u8>,
) -> bool {
    match spec_check_key(pre, req) {
        AuthV::Denied(ds, m) => post == pre && st == ds && body == spec_json_response(
            JSONResponseV::Error(m),
        ),
        AuthV::Granted(name) => {
            &&& post =~= pre.update(
                ix_of(pre, name),
                UserV { log: Seq::<UserInfoV>::empty(), ..pre[ix_of(pre, name)] },
            )
            &&& st == ResponseStatus::Okay
            &&& body == spec_json_response(JSONResponseV::List(pre[ix_of(pre, name)].log))
        },
    }
}

/// What `bump` leaves behind: on refusal, no change; otherwise the
/// keep-alive stamp set exactly when the user is online — and a fixed
/// confirmation either way, whether or not the bump took effect.
pub open spec fn post_bump(
    pre: Seq<UserV>,
    post: Seq<UserV>,
    req: RequestV,
    now: u64,
    st: ResponseStatus,
    body: Seq<u8>,
) -> bool {
    match spec_check_key(pre, req) {
        AuthV::Denied(ds, m) => post == pre && st == ds && body == spec_json_response(
            JSONResponseV::Error(m),
        ),
        AuthV::Granted(name) => {
            &&& post =~= (if pre[ix_of(pre, name)].status.online {
                pre.update(
                    ix_of(pre, name),
                    UserV { bumped: Some(now), ..pre[ix_of(pre, name)] },
                )
            } else {
                pre
            })
            &&& st == ResponseStatus::Okay
            &&& body == spec_json_response(JSONResponseV::OK(spec_msg_bumped()))
        },
    }
}

impl Fingr {
    /// `finger`: looks the target up, logs the visit, and reports the
    /// target's presence.
    pub fn finger(&mut self, req: &Request, now: u64) -> (r: Response)
        requires
            old(self).wf(),
        ensures
            final(self).wf(),
            final(self).store@ == old(self).store@,
            final(self).config == old(self).config,
            post_finger(old(self).users@, final(self).users@, req@, now, r.status, r.body@),
    {
        let visitor: UserInfo = match self.check_key(req) {
            Auth::Granted(n) => {
                match self.users.lookup(n.as_slice()) {
                    Some(u) => u.projection(now),
                    None => {
                        proof {
                            assert(false);
                        }
                        UserInfo {
                            username: anonymous_name(),
                            status: JSONStatus { online: false, text: None, since: 0 },
                        }
                    },
                }
            },
            Auth::Denied(_) => UserInfo {
                username: anonymous_name(),
                status: JSONStatus { online: false, text: None, since: 0 },
            },
        };
        proof {
            assert(visitor@ == spec_visitor(old(self).users@, req@, now));
        }
        let target = match &req.finger_user {
            Some(t) => t,
            None => {
                return Response::from(
                    ResponseStatus::Bad,
                    &JSONResponse::Error(msg_user_required()),
                );
            },
        };
        let projection = match self.users.lookup(target.as_slice()) {
            Some(u) => Some(u.projection(now)),
            None => None,
        };
        match projection {
            Some(p) => {
                let hit = self.users.visit(target.as_slice(), visitor);
                proof {
                    assert(hit);
                    lemma_same_names_iff(old(self).users@, self.users@);
                }
                Response::from(ResponseStatus::Okay, &JSONResponse::User(p))
            },
            None => Response::from(
                ResponseStatus::NotFound,
                &JSONResponse::Error(msg_user_not_found()),
            ),
        }
    }

    /// `check`: drains and returns the authenticated user's visitor log.
    pub fn check(&mut self, req: &Request) -> (r: Response)
        requires
            old(self).wf(),
        ensures
            final(self).wf(),
            final(self).store@ == old(self).store@,
            final(self).config == old(self).config,
            post_check(old(self).users@, final(self).users@, req@, r.status, r.body@),
    {
        let username = match self.check_key(req) {
            Auth::Granted(n) => n,
            Auth::Denied(resp) => {
                return resp;
            },
        };
        match self.users.drain_log(username.as_slice()) {
            Some(log) => {
                proof {
                    lemma_same_names_iff(old(self).users@, self.users@);
                }
                Response::from(ResponseStatus::Okay, &JSONResponse::List(log))
            },
            None => {
                proof {
                    assert(false);
                }
                Response::from(
                    ResponseStatus::NotFound,
                    &JSONResponse::Error(msg_user_not_found()),
                )
            },
        }
    }

    /// `bump`: records the authenticated user's keep-alive; answers with a
    /// fixed confirmation whether or not the user was online for it to
    /// take effect.
    pub fn bump(&mut self, req: &Request, now: u64) -> (r: Response)
        requires
            old(self).wf(),
        ensures
            final(self).wf(),
            final(self).store@ == old(self).store@,
            final(self).config == old(self).config,
            post_bump(old(self).users@, final(self).users@, req@, now, r.status, r.body@),
    {
        let username = match self.check_key(req) {
            Auth::Granted(n) => n,
            Auth::Denied(resp) => {
                return resp;
            },
        };
        let _took = self.users.bump(username.as_slice(), now);
        proof {
            lemma_same_names_iff(old(self).users@, self.users@);
        }
        Response::from(ResponseStatus::Okay, &JSONResponse::OK(msg_bumped()))
    }

    /// `list`: the projections of every registered user, in registry
    /// order; no authentication and no change.
    pub fn list(&self, now: u64) -> (r: Response)
        requires
            self.wf(),
        ensures
            r.status == ResponseStatus::Okay,
            r.body@ == spec_json_response(
                JSONResponseV::List(spec_projections(self.users@, now)),
            ),
    {
        let mut out: Vec<UserInfo> = Vec::new();
        let mut i: usize = 0;
        while i < self.users.users.len()
            invariant
                i <= self.users@.len(),
                self.users@.len() == self.users.users@.len(),
                out@.len() == i,
                forall|k: int| #![auto]
                    0 <= k < i ==> out@[k]@ == spec_projection_at(self.users@, k, now),
            decreases self.users@.len() - i,
        {
            let p = self.users.users[i].projection(now);
            proof {
                assert(self.users.users@[i as int]@ == self.users@[i as int]);
            }
            out.push(p);
            i = i + 1;
        }
        proof {
            assert(infos_v(out@) =~= spec_projections(self.users@, now));
        }
        Response::from(ResponseStatus::Okay, &JSONResponse::List(out))
    }
}


/// A store mutation decided but not yet persisted: the record to add, or
/// the username whose record leaves.
pub enum Pending {
    Register(StoredUser),
    Deregister(Vec<u8>),
}

/// A dispatcher's step: a finished response, or a request to persist
/// `new_store` and then confirm with `commit`.
pub enum Step {
    Reply(Response),
    StoreWrite { new_store: Vec<StoredUser>, pending: Pending },
}

/// How a registration request resolves before anything is persisted: the
/// stored record to append, or the refusal.  Registration must be open; a
/// username must be named; with a server-wide key configured, the caller's
/// `key` must equal it; the name must be free; and the `key` — which
/// doubles as the new user's credential — must be present.
pub open spec fn spec_register_outcome(
    registration: bool,
    auth_key: Option<Seq<u8>>,
    users: Seq<UserV>,
    req: RequestV,
) -> Result<StoredUserV, (ResponseStatus, Seq<u8>)> {
    if !registration {
        Err((ResponseStatus::Unauth, spec_msg_no_registration()))
    } else {
        match req.username {
            None => Err((ResponseStatus::Bad, spec_msg_username_required_reg())),
            Some(name) => {
                let keyok = match auth_key {
                    None => true,
                    Some(ak) => req.key == Some(ak),
                };
                if !keyok {
                    Err((ResponseStatus::Unauth, spec_msg_bad_reg_key()))
                } else if has_name(users, name) {
                    Err((ResponseStatus::ServerError, spec_msg_taken()))
                } else {
                    match req.key {
                        None => Err((ResponseStatus::ServerError, spec_msg_password_required())),
                        Some(k) => Ok(spec_stored_new(name, sha256_hex_of(k))),
                    }
                }
            },
        }
    }
}

impl Fingr {
    /// Whether a pending store mutation still applies to this state.
    pub open spec fn can_commit(&self, p: &Pending) -> bool {
        match p {
            Pending::Register(rec) => !has_name(self.users@, rec@.username),
            Pending::Deregister(n) => has_name(self.users@, n@),
        }
    }

    /// Whether a pending store mutation still applies, decided at run time.
    pub fn check_commit(&self, p: &Pending) -> (r: bool)
        ensures
            r == self.can_commit(p),
    {
        match p {
            Pending::Register(rec) => !self.users.contains(rec.username.as_slice()),
            Pending::Deregister(n) => self.users.contains(n.as_slice()),
        }
    }

    /// `register`: decides a registration without touching anything.  On
    /// refusal, the response; otherwise the records to persist — the old
    /// store plus the new record — and the pending mutation to confirm.
    pub fn register(&self, req: &Request) -> (r: Step)
        requires
            self.wf(),
        ensures
            (match r {
                Step::Reply(resp) => ({
                    &&& spec_register_outcome(
                        self.config.registration,
                        crate::userlist::opt_v(self.config.auth_key),
                        self.users@,
                        req@,
                    ) matches Err((st, m))
                    &&& resp.status == st
                    &&& resp.body@ == spec_json_response(JSONResponseV::Error(m))
                }),
                Step::StoreWrite { new_store, pending } => ({
                    &&& spec_register_outcome(
                        self.config.registration,
                        crate::userlist::opt_v(self.config.auth_key),
                        self.users@,
                        req@,
                    ) matches Ok(rec)
                    &&& pending matches Pending::Register(prec)
                    &&& prec@ == rec
                    &&& store_v(new_store@) =~= store_v(self.store@).push(rec)
                    &&& self.can_commit(&pending)
                }),
            }),
    {
        if !self.config.registration {
            return Step::Reply(
                Response::from(ResponseStatus::Unauth, &JSONResponse::Error(msg_no_registration())),
            );
        }
        let username = match &req.username {
            Some(u) => u,
            None => {
                return Step::Reply(
                    Response::from(
                        ResponseStatus::Bad,
                        &JSONResponse::Error(msg_username_required_reg()),
                    ),
                );
            },
        };
        match &self.config.auth_key {
            Some(ak) => {
                match &req.key {
                    None => {
                        return Step::Reply(
                            Response::from(
                                ResponseStatus::Unauth,
                                &JSONResponse::Error(msg_bad_reg_key()),
                            ),
                        );
                    },
                    Some(k) => {
                        if !bytes_eq(k.as_slice(), ak.as_slice()) {
                            return Step::Reply(
                                Response::from(
                                    ResponseStatus::Unauth,
                                    &JSONResponse::Error(msg_bad_reg_key()),
                                ),
                            );
                        }
                    },
                }
            },
            None => {},
        }
        if self.users.contains(username.as_slice()) {
            return Step::Reply(
                Response::from(ResponseStatus::ServerError, &JSONResponse::Error(msg_taken())),
            );
        }
        let k = match &req.key {
            Some(k) => k,
            None => {
                return Step::Reply(
                    Response::from(
                        ResponseStatus::ServerError,
                        &JSONResponse::Error(msg_password_required()),
                    ),
                );
            },
        };
        let h = sha256_hex(k.as_slice());
        let rec = StoredUser {
            username: to_vec(username.as_slice()),
            hash: h,
            website: None,
            social: Vec::new(),
            bio: None,
        };
        proof {
            assert(rec@ =~= spec_stored_new(username@, sha256_hex_of(k@)));
        }
        let mut new_store = clone_store(&self.store);
        new_store.push(rec.duplicate());
        proof {
            assert(store_v(new_store@) =~= store_v(self.store@).push(rec@));
        }
        Step::StoreWrite { new_store: new_store, pending: Pending::Register(rec) }
    }

    /// `deregister`: decides a removal without touching anything.  On
    /// refused authentication, the response; otherwise the records to
    /// persist — the old store without the caller's record — and the
    /// pending mutation to confirm.
    pub fn deregister(&self, req: &Request) -> (r: Step)
        requires
            self.wf(),
        ensures
            (match r {
                Step::Reply(resp) => ({
                    &&& spec_check_key(self.users@, req@) matches AuthV::Denied(st, m)
                    &&& resp.status == st
                    &&& resp.body@ == spec_json_response(JSONResponseV::Error(m))
                }),
                Step::StoreWrite { new_store, pending } => ({
                    &&& spec_check_key(self.users@, req@) matches AuthV::Granted(name)
                    &&& pending matches Pending::Deregister(n)
                    &&& n@ == name
                    &&& store_v(new_store@) =~= store_v(self.store@).remove(
                        ix_of_stored(store_v(self.store@), name),
                    )
                    &&& self.can_commit(&pending)
                }),
            }),
    {
        let username = match self.check_key(req) {
            Auth::Granted(n) => n,
            Auth::Denied(resp) => {
                return Step::Reply(resp);
            },
        };
        let mut new_store = clone_store(&self.store);
        let ghost cloned = store_v(new_store@);
        match store_find_ix(&new_store, username.as_slice()) {
            Some(i) => {
                proof {
                    lemma_ix_of_stored(store_v(new_store@), username@, i as int);
                    lemma_ix_of_stored(store_v(self.store@), username@, i as int);
                }
                let _ = new_store.remove(i);
                proof {
                    assert(store_v(new_store@) =~= cloned.remove(i as int));
                    assert(cloned.remove(i as int) =~= store_v(self.store@).remove(i as int));
                }
            },
            None => {
                proof {
                    assert(has_name(self.users@, username@));
                    assert(false);
                }
            },
        }
        Step::StoreWrite { new_store: new_store, pending: Pending::Deregister(username) }
    }

    /// Confirms a pending store mutation after the records were persisted:
    /// the registry and the store model change together, and the client
    /// gets the fixed confirmation.
    pub fn commit(&mut self, pending: Pending, now: u64) -> (r: Response)
        requires
            old(self).wf(),
            old(self).can_commit(&pending),
        ensures
            final(self).wf(),
            final(self).config == old(self).config,
            (match pending {
                Pending::Register(rec) => ({
                    &&& final(self).users@ =~= old(self).users@.push(spec_loaded(rec@, now))
                    &&& store_v(final(self).store@) =~= store_v(old(self).store@).push(rec@)
                    &&& r.status == ResponseStatus::Okay
                    &&& r.body@ == spec_json_response(JSONResponseV::OK(spec_msg_registered()))
                }),
                Pending::Deregister(n) => ({
                    &&& final(self).users@ =~= old(self).users@.remove(
                        ix_of(old(self).users@, n@),
                    )
                    &&& store_v(final(self).store@) =~= store_v(old(self).store@).remove(
                        ix_of_stored(store_v(old(self).store@), n@),
                    )
                    &&& r.status == ResponseStatus::Okay
                    &&& r.body@ == spec_json_response(JSONResponseV::OK(spec_msg_removed()))
                }),
            }),
    {
        match pending {
            Pending::Register(rec) => {
                let ghost oldu = self.users@;
                let ghost olds = store_v(self.store@);
                let ghost recv = rec@;
                let user = loaded_user(&rec, now);
                let ghost userv = user@;
                self.users.users.push(user);
                self.store.push(rec);
                proof {
                    assert(self.users@ =~= oldu.push(userv));
                    assert(store_v(self.store@) =~= olds.push(recv));
                    lemma_push_name(oldu, userv);
                    lemma_stored_push_name(olds, recv);
                    assert(userv.username == recv.username);
                    assert(!has_name(oldu, recv.username));
                    assert(!has_stored(olds, recv.username));
                    assert forall|n: Seq<u8>| #![auto] has_name(self.users@, n) <==> has_stored(
                        store_v(self.store@),
                        n,
                    ) by {
                        assert(has_name(oldu.push(userv), n) <==> (has_name(oldu, n)
                            || userv.username == n));
                        assert(has_stored(olds.push(recv), n) <==> (has_stored(olds, n)
                            || recv.username == n));
                    }
                }
                Response::from(ResponseStatus::Okay, &JSONResponse::OK(msg_registered()))
            },
            Pending::Deregister(n) => {
                let res = self.users.remove(n.as_slice(), &mut self.store);
                proof {
                    if res is Err {
                        assert(false);
                    }
                    let oldu = old(self).users@;
                    let olds = store_v(old(self).store@);
                    assert(has_name(oldu, n@));
                    assert(has_stored(olds, n@));
                    let iu = ix_of(oldu, n@);
                    let is_ = ix_of_stored(olds, n@);
                    assert(0 <= iu < oldu.len() && oldu[iu].username == n@);
                    assert(0 <= is_ < olds.len() && olds[is_].username == n@);
                    lemma_remove_name(oldu, iu);
                    lemma_stored_remove_name(olds, is_);
                    assert forall|m: Seq<u8>| #![auto] has_name(self.users@, m) <==> has_stored(
                        store_v(self.store@),
                        m,
                    ) by {
                        assert(has_name(oldu.remove(iu), m) <==> (has_name(oldu, m) && m
                            != oldu[iu].username));
                        assert(has_stored(olds.remove(is_), m) <==> (has_stored(olds, m) && m
                            != olds[is_].username));
                    }
                }
                Response::from(ResponseStatus::Okay, &JSONResponse::OK(msg_removed()))
            },
        }
    }
}

/// The response a failed decode gets: `400 Bad Request` with the
/// parse-failure message.
pub fn parse_failure_response(e: &ParseError) -> (r: Response)
    ensures
        r.status == ResponseStatus::Bad,
        r.body@ == spec_json_response(JSONResponseV::Error(spec_parse_error_message(*e))),
{
    Response::from(ResponseStatus::Bad, &JSONResponse::Error(e.message()))
}

/// The response a failed store write gets: `500 Server Error` with the
/// failure's message.
pub fn store_failure_response(msg: Vec<u8>) -> (r: Response)
    ensures
        r.status == ResponseStatus::ServerError,
        r.body@ == spec_json_response(JSONResponseV::Error(msg@)),
{
    Response::from(ResponseStatus::ServerError, &JSONResponse::Error(msg))
}


impl Fingr {
    /// Builds the server state at startup: the registry loaded from the
    /// store's records — every user offline — and the store model holding
    /// those same records.
    pub fn init(config: Config, records: &Vec<StoredUser>, now: u64) -> (r: Fingr)
        requires
            unique_stored(store_v(records@)),
        ensures
            r.wf(),
            r.config == config,
            store_v(r.store@) =~= store_v(records@),
            r.users@.len() == records@.len(),
            forall|k: int| #![auto]
                0 <= k < records@.len() ==> r.users@[k] == spec_loaded(store_v(records@)[k], now),
    {
        let users = UserList::load(records, now);
        let store = clone_store(records);
        let r = Fingr { config: config, users: users, store: store };
        proof {
            assert forall|n: Seq<u8>| #![auto] has_name(r.users@, n) <==> has_stored(
                store_v(r.store@),
                n,
            ) by {
                assert(has_name(r.users@, n) <==> has_stored(store_v(records@), n));
                assert(store_v(r.store@) == store_v(records@));
            }
        }
        r
    }

    /// Dispatches one decoded request: the six in-memory actions answer and
    /// mutate at once; `register` and `deregister` return the store records
    /// to persist first.  Each action's outcome is exactly its handler's.
    pub fn run_request(&mut self, req: &Request, now: u64) -> (r: Step)
        requires
            old(self).wf(),
        ensures
            final(self).wf(),
            final(self).config == old(self).config,
            (match req@.action {
                Action::Login => final(self).store@ == old(self).store@ && (
                r matches Step::Reply(resp) && post_change_online(
                    old(self).users@,
                    final(self).users@,
                    req@,
                    true,
                    now,
                    resp.status,
                    resp.body@,
                )),
                Action::Logoff => final(self).store@ == old(self).store@ && (
                r matches Step::Reply(resp) && post_change_online(
                    old(self).users@,
                    final(self).users@,
                    req@,
                    false,
                    now,
                    resp.status,
                    resp.body@,
                )),
                Action::Finger => final(self).store@ == old(self).store@ && (
                r matches Step::Reply(resp) && post_finger(
                    old(self).users@,
                    final(self).users@,
                    req@,
                    now,
                    resp.status,
                    resp.body@,
                )),
                Action::Check => final(self).store@ == old(self).store@ && (
                r matches Step::Reply(resp) && post_check(
                    old(self).users@,
                    final(self).users@,
                    req@,
                    resp.status,
                    resp.body@,
                )),
                Action::Bump => final(self).store@ == old(self).store@ && (
                r matches Step::Reply(resp) && post_bump(
                    old(self).users@,
                    final(self).users@,
                    req@,
                    now,
                    resp.status,
                    resp.body@,
                )),
                Action::List => final(self).store@ == old(self).store@ && final(self).users@
                    == old(self).users@ && (r matches Step::Reply(resp) && resp.status
                    == ResponseStatus::Okay && resp.body@ == spec_json_response(
                    JSONResponseV::List(spec_projections(old(self).users@, now)),
                )),
                Action::Register => final(self).store@ == old(self).store@ && final(self).users@
                    == old(self).users@ && (match r {
                    Step::Reply(resp) => ({
                        &&& spec_register_outcome(
                            old(self).config.registration,
                            crate::userlist::opt_v(old(self).config.auth_key),
                            old(self).users@,
                            req@,
                        ) matches Err((st, m))
                        &&& resp.status == st
                        &&& resp.body@ == spec_json_response(JSONResponseV::Error(m))
                    }),
                    Step::StoreWrite { new_store, pending } => ({
                        &&& spec_register_outcome(
                            old(self).config.registration,
                            crate::userlist::opt_v(old(self).config.auth_key),
                            old(self).users@,
                            req@,
                        ) matches Ok(rec)
                        &&& pending matches Pending::Register(prec)
                        &&& prec@ == rec
                        &&& store_v(new_store@) =~= store_v(old(self).store@).push(rec)
                        &&& final(self).can_commit(&pending)
                    }),
                }),
                Action::Deregister => final(self).store@ == old(self).store@
                    && final(self).users@ == old(self).users@ && (match r {
                    Step::Reply(resp) => ({
                        &&& spec_check_key(old(self).users@, req@) matches AuthV::Denied(st, m)
                        &&& resp.status == st
                        &&& resp.body@ == spec_json_response(JSONResponseV::Error(m))
                    }),
                    Step::StoreWrite { new_store, pending } => ({
                        &&& spec_check_key(old(self).users@, req@) matches AuthV::Granted(name)
                        &&& pending matches Pending::Deregister(n)
                        &&& n@ == name
                        &&& store_v(new_store@) =~= store_v(old(self).store@).remove(
                            ix_of_stored(store_v(old(self).store@), name),
                        )
                        &&& final(self).can_commit(&pending)
                    }),
                }),
            }),
    {
        match req.action {
            Action::Login => Step::Reply(self.login(req, now)),
            Action::Logoff => Step::Reply(self.logoff(req, now)),
            Action::Finger => Step::Reply(self.finger(req, now)),
            Action::Check => Step::Reply(self.check(req)),
            Action::Bump => Step::Reply(self.bump(req, now)),
            Action::List => Step::Reply(self.list(now)),
            Action::Register => self.register(req),
            Action::Deregister => self.deregister(req),
        }
    }
}

} // verus!
