//! The user registry: records, presence status, the visitor log, and the
//! time-based online/offline state machine.  Timestamps are monotonic clock
//! readings in whole seconds, supplied by the caller.

use vstd::prelude::*;
use crate::bytes::bytes_eq;
use crate::bytes::to_vec;
use crate::hashing::sha256_hex;
use crate::hashing::sha256_hex_of;

verus! {

/// Seconds an online user may go without activity before a sweep demotes them.
pub const SWEEP_THRESHOLD: u64 = 3600;

/// Seconds elapsed from `t` to `now` on a monotonic clock; zero if `t` is
/// not in the past.
pub open spec fn spec_elapsed(now: u64, t: u64) -> u64 {
    if now >= t {
        (now - t) as u64
    } else {
        0
    }
}

/// Elapsed seconds, computed without underflow.
pub fn elapsed(now: u64, t: u64) -> (r: u64)
    ensures
        r == spec_elapsed(now, t),
{
    if now >= t {
        now - t
    } else {
        0
    }
}

/// The mathematical value of an optional byte string.
pub open spec fn opt_v(o: Option<Vec<u8>>) -> Option<Seq<u8>> {
    match o {
        Some(v) => Some(v@),
        None => None,
    }
}

/// The mathematical value of a list of social links (name, target).
pub open spec fn social_v(s: Seq<(Vec<u8>, Vec<u8>)>) -> Seq<(Seq<u8>, Seq<u8>)> {
    Seq::new(s.len(), |i: int| (s[i].0@, s[i].1@))
}

/// Equality of optional byte strings.
pub fn opt_bytes_eq(a: &Option<Vec<u8>>, b: &Option<Vec<u8>>) -> (r: bool)
    ensures
        r <==> opt_v(*a) == opt_v(*b),
{
    match (a, b) {
        (Some(x), Some(y)) => bytes_eq(x.as_slice(), y.as_slice()),
        (None, None) => true,
        _ => false,
    }
}

/// A copy of an optional byte string.
pub fn clone_opt_bytes(o: &Option<Vec<u8>>) -> (r: Option<Vec<u8>>)
    ensures
        opt_v(r) == opt_v(*o),
{
    match o {
        Some(v) => Some(to_vec(v.as_slice())),
        None => None,
    }
}

/// A copy of a list of social links.
pub fn clone_social(s: &Vec<(Vec<u8>, Vec<u8>)>) -> (r: Vec<(Vec<u8>, Vec<u8>)>)
    ensures
        social_v(r@) == social_v(s@),
{
    let mut r: Vec<(Vec<u8>, Vec<u8>)> = Vec::new();
    let mut i: usize = 0;
    while i < s.len()
        invariant
            i <= s@.len(),
            r@.len() == i,
            forall|j: int| 0 <= j < i ==> (r@[j].0@, r@[j].1@) == (s@[j].0@, s@[j].1@),
        decreases s@.len() - i,
    {
        let pair = (to_vec(s[i].0.as_slice()), to_vec(s[i].1.as_slice()));
        r.push(pair);
        i = i + 1;
    }
    proof {
        assert(social_v(r@) =~= social_v(s@));
    }
    r
}

/// A presence status: the online flag, the free-text message, and the
/// monotonic second at which the current flag value was last set.
pub struct Status {
    pub online: bool,
    pub text: Option<Vec<u8>>,
    pub since: u64,
}

/// The mathematical value of a `Status`.
#[verifier::ext_equal]
pub ghost struct StatusV {
    pub online: bool,
    pub text: Option<Seq<u8>>,
    pub since: u64,
}

impl View for Status {
    type V = StatusV;

    open spec fn view(&self) -> StatusV {
        StatusV { online: self.online, text: opt_v(self.text), since: self.since }
    }
}

impl Status {
    /// A fresh status: offline, no message, set at `now`.
    pub fn offline(now: u64) -> (r: Status)
        ensures
            r@ == (StatusV { online: false, text: None, since: now }),
    {
        Status { online: false, text: None, since: now }
    }

    /// A field-for-field copy.
    pub fn duplicate(&self) -> (r: Status)
        ensures
            r@ == self@,
    {
        Status { online: self.online, text: clone_opt_bytes(&self.text), since: self.since }
    }
}

/// A status projection as it is reported on the wire: the `since` field
/// carries elapsed seconds rather than an absolute clock reading.
pub struct JSONStatus {
    pub online: bool,
    pub text: Option<Vec<u8>>,
    pub since: u64,
}

/// The mathematical value of a `JSONStatus`.
#[verifier::ext_equal]
pub ghost struct JSONStatusV {
    pub online: bool,
    pub text: Option<Seq<u8>>,
    pub since: u64,
}

impl View for JSONStatus {
    type V = JSONStatusV;

    open spec fn view(&self) -> JSONStatusV {
        JSONStatusV { online: self.online, text: opt_v(self.text), since: self.since }
    }
}

/// The projection of a status at time `now`.
pub open spec fn spec_status_projection(s: StatusV, now: u64) -> JSONStatusV {
    JSONStatusV { online: s.online, text: s.text, since: spec_elapsed(now, s.since) }
}

impl JSONStatus {
    /// Projects a status for reporting, turning its absolute `since` into
    /// elapsed seconds.
    pub fn from_status(s: &Status, now: u64) -> (r: JSONStatus)
        ensures
            r@ == spec_status_projection(s@, now),
    {
        JSONStatus { online: s.online, text: clone_opt_bytes(&s.text), since: elapsed(now, s.since) }
    }

    /// A field-for-field copy.
    pub fn duplicate(&self) -> (r: JSONStatus)
        ensures
            r@ == self@,
    {
        JSONStatus { online: self.online, text: clone_opt_bytes(&self.text), since: self.since }
    }
}

impl Default for JSONStatus {
    /// The default projection: offline, no message, zero elapsed seconds.
    fn default() -> (r: JSONStatus)
        ensures
            r@ == (JSONStatusV { online: false, text: None, since: 0 }),
    {
        JSONStatus { online: false, text: None, since: 0 }
    }
}

/// A user's presence as seen by another user: name and projected status.
/// Visitor log entries have this shape.
pub struct UserInfo {
    pub username: Vec<u8>,
    pub status: JSONStatus,
}

/// The mathematical value of a `UserInfo`.
#[verifier::ext_equal]
pub ghost struct UserInfoV {
    pub username: Seq<u8>,
    pub status: JSONStatusV,
}

impl View for UserInfo {
    type V = UserInfoV;

    open spec fn view(&self) -> UserInfoV {
        UserInfoV { username: self.username@, status: self.status@ }
    }
}

/// The mathematical values of a list of projections.
pub open spec fn infos_v(s: Seq<UserInfo>) -> Seq<UserInfoV> {
    Seq::new(s.len(), |i: int| s[i]@)
}

impl UserInfo {
    /// A field-for-field copy.
    pub fn duplicate(&self) -> (r: UserInfo)
        ensures
            r@ == self@,
    {
        UserInfo { username: to_vec(self.username.as_slice()), status: self.status.duplicate() }
    }

    /// Deep equality of two projections.
    pub fn same(&self, other: &UserInfo) -> (r: bool)
        ensures
            r <==> self@ == other@,
    {
        bytes_eq(self.username.as_slice(), other.username.as_slice())
            && self.status.online == other.status.online
            && self.status.since == other.status.since
            && opt_bytes_eq(&self.status.text, &other.status.text)
    }
}



/// A record as the backing store keeps it: identity, credential digest and
/// the profile fields carried through registration.
pub struct StoredUser {
    pub username: Vec<u8>,
    pub hash: Vec<u8>,
    pub website: Option<Vec<u8>>,
    pub social: Vec<(Vec<u8>, Vec<u8>)>,
    pub bio: Option<Vec<u8>>,
}

/// The mathematical value of a `StoredUser`.
#[verifier::ext_equal]
pub ghost struct StoredUserV {
    pub username: Seq<u8>,
    pub hash: Seq<u8>,
    pub website: Option<Seq<u8>>,
    pub social: Seq<(Seq<u8>, Seq<u8>)>,
    pub bio: Option<Seq<u8>>,
}

impl View for StoredUser {
    type V = StoredUserV;

    open spec fn view(&self) -> StoredUserV {
        StoredUserV {
            username: self.username@,
            hash: self.hash@,
            website: opt_v(self.website),
            social: social_v(self.social@),
            bio: opt_v(self.bio),
        }
    }
}

impl StoredUser {
    /// A field-for-field copy.
    pub fn duplicate(&self) -> (r: StoredUser)
        ensures
            r@ == self@,
    {
        StoredUser {
            username: to_vec(self.username.as_slice()),
            hash: to_vec(self.hash.as_slice()),
            website: clone_opt_bytes(&self.website),
            social: clone_social(&self.social),
            bio: clone_opt_bytes(&self.bio),
        }
    }
}

/// A registered user: identity, credential digest, presence, keep-alive
/// stamp, visitor log, and profile fields.
pub struct User {
    pub username: Vec<u8>,
    pub hash: Vec<u8>,
    pub status: Status,
    pub bumped: Option<u64>,
    pub log: Vec<UserInfo>,
    pub website: Option<Vec<u8>>,
    pub social: Vec<(Vec<u8>, Vec<u8>)>,
    pub bio: Option<Vec<u8>>,
}

/// The mathematical value of a `User`.
#[verifier::ext_equal]
pub ghost struct UserV {
    pub username: Seq<u8>,
    pub hash: Seq<u8>,
    pub status: StatusV,
    pub bumped: Option<u64>,
    pub log: Seq<UserInfoV>,
    pub website: Option<Seq<u8>>,
    pub social: Seq<(Seq<u8>, Seq<u8>)>,
    pub bio: Option<Seq<u8>>,
}

impl View for User {
    type V = UserV;

    open spec fn view(&self) -> UserV {
        UserV {
            username: self.username@,
            hash: self.hash@,
            status: self.status@,
            bumped: self.bumped,
            log: infos_v(self.log@),
            website: opt_v(self.website),
            social: social_v(self.social@),
            bio: opt_v(self.bio),
        }
    }
}

/// Whether a sweep at `now` must demote this user: they are online and the
/// relevant stamp — the keep-alive if one is set, the status change
/// otherwise — is at least `SWEEP_THRESHOLD` seconds old.
pub open spec fn sweep_due(u: UserV, now: u64) -> bool {
    u.status.online && match u.bumped {
        None => spec_elapsed(now, u.status.since) >= SWEEP_THRESHOLD,
        Some(b) => spec_elapsed(now, b) >= SWEEP_THRESHOLD,
    }
}

/// The record a sweep at `now` leaves behind: demoted to offline with the
/// keep-alive cleared and `since` reset, or untouched.
pub open spec fn spec_swept(u: UserV, now: u64) -> UserV {
    if sweep_due(u, now) {
        UserV {
            username: u.username,
            hash: u.hash,
            status: StatusV { online: false, text: u.status.text, since: now },
            bumped: None,
            log: u.log,
            website: u.website,
            social: u.social,
            bio: u.bio,
        }
    } else {
        u
    }
}

/// A visitor log after an insertion: consecutive identical entries collapse,
/// so an entry equal to the current last one is not appended again.
pub open spec fn spec_add_log(log: Seq<UserInfoV>, e: UserInfoV) -> Seq<UserInfoV> {
    if log.len() > 0 && log.last() == e {
        log
    } else {
        log.push(e)
    }
}

impl User {
    /// The username this record is keyed by.
    pub fn username(&self) -> (r: &Vec<u8>)
        ensures
            r@ == self@.username,
    {
        &self.username
    }

    /// The current presence status.
    pub fn status(&self) -> (r: &Status)
        ensures
            r@ == self@.status,
    {
        &self.status
    }

    /// Replaces the presence status; nothing else changes.
    pub fn set_status(&mut self, s: Status)
        ensures
            final(self)@ == (UserV { status: s@, ..old(self)@ }),
    {
        self.status = s;
    }

    /// Whether the user is currently online.
    pub fn online(&self) -> (r: bool)
        ensures
            r == self@.status.online,
    {
        self.status.online
    }

    /// Records a keep-alive: exactly when the user is online, stamps
    /// `bumped = now` and reports true; an offline user is left untouched.
    /// Neither the online flag, the message, nor `since` ever changes.
    pub fn bump(&mut self, now: u64) -> (r: bool)
        ensures
            r == old(self)@.status.online,
            final(self)@.status == old(self)@.status,
            final(self)@ == if old(self)@.status.online {
                UserV { bumped: Some(now), ..old(self)@ }
            } else {
                old(self)@
            },
    {
        if self.status.online {
            self.bumped = Some(now);
            true
        } else {
            false
        }
    }

    /// Whether `h` equals the stored credential digest.
    pub fn has_hash(&self, h: &[u8]) -> (r: bool)
        ensures
            r <==> h@ == self@.hash,
    {
        bytes_eq(h, self.hash.as_slice())
    }

    /// Whether `key` is the credential this record was registered with:
    /// its SHA-256 digest must equal the stored digest.
    pub fn compare_key(&self, key: &[u8]) -> (r: bool)
        ensures
            r <==> sha256_hex_of(key@) == self@.hash,
    {
        let h = sha256_hex(key);
        self.has_hash(h.as_slice())
    }

    /// One sweep step on this record alone.
    pub fn check_status(&mut self, now: u64)
        ensures
            final(self)@ == spec_swept(old(self)@, now),
    {
        if self.status.online {
            let due = match self.bumped {
                None => elapsed(now, self.status.since) >= SWEEP_THRESHOLD,
                Some(b) => elapsed(now, b) >= SWEEP_THRESHOLD,
            };
            if due {
                self.status.online = false;
                self.status.since = now;
                self.bumped = None;
            }
        }
    }

    /// Appends a visit to the log, collapsing a repeat of the last entry.
    pub fn add_log(&mut self, entry: UserInfo)
        ensures
            final(self)@ == (UserV {
                log: spec_add_log(old(self)@.log, entry@),
                ..old(self)@
            }),
    {
        let repeat = self.log.len() > 0 && self.log[self.log.len() - 1].same(&entry);
        if !repeat {
            self.log.push(entry);
            proof {
                assert(infos_v(self.log@) =~= infos_v(old(self).log@).push(entry@));
            }
        }
    }

    /// Drains the visitor log: returns everything accumulated and leaves the
    /// log empty, so a repeated drain returns nothing until new visits occur.
    pub fn log(&mut self) -> (r: Vec<UserInfo>)
        ensures
            infos_v(r@) == old(self)@.log,
            final(self)@ == (UserV { log: Seq::<UserInfoV>::empty(), ..old(self)@ }),
    {
        let mut drained: Vec<UserInfo> = Vec::new();
        core::mem::swap(&mut self.log, &mut drained);
        proof {
            assert(infos_v(Seq::<UserInfo>::empty()) =~= Seq::<UserInfoV>::empty());
        }
        drained
    }

    /// This user's reported projection at time `now`.
    pub fn projection(&self, now: u64) -> (r: UserInfo)
        ensures
            r@ == (UserInfoV {
                username: self@.username,
                status: spec_status_projection(self@.status, now),
            }),
    {
        UserInfo {
            username: to_vec(self.username.as_slice()),
            status: JSONStatus::from_status(&self.status, now),
        }
    }
}


/// The mathematical values of a list of stored records.
pub open spec fn store_v(s: Seq<StoredUser>) -> Seq<StoredUserV> {
    Seq::new(s.len(), |i: int| s[i]@)
}

/// Whether some record in `s` is keyed by `n`.
pub open spec fn has_name(s: Seq<UserV>, n: Seq<u8>) -> bool {
    exists|i: int| 0 <= i < s.len() && s[i].username == n
}

/// The index of the record keyed by `n` (meaningful when names are unique).
pub open spec fn ix_of(s: Seq<UserV>, n: Seq<u8>) -> int {
    choose|i: int| 0 <= i < s.len() && s[i].username == n
}

/// No two records share a username.
pub open spec fn unique_names(s: Seq<UserV>) -> bool {
    forall|i: int, j: int| 0 <= i < j < s.len() ==> s[i].username != s[j].username
}

/// The record keyed by `n`, if any.
pub open spec fn spec_lookup(s: Seq<UserV>, n: Seq<u8>) -> Option<UserV> {
    if has_name(s, n) {
        Some(s[ix_of(s, n)])
    } else {
        None
    }
}

/// With unique names, an index holding `n` is the index `ix_of` picks.
pub proof fn lemma_ix_of(s: Seq<UserV>, n: Seq<u8>, i: int)
    requires
        unique_names(s),
        0 <= i < s.len(),
        s[i].username == n,
    ensures
        has_name(s, n),
        ix_of(s, n) == i,
{
    assert(has_name(s, n));
    let k = ix_of(s, n);
    if k != i {
        if k < i {
            assert(s[k].username != s[i].username);
        } else {
            assert(s[i].username != s[k].username);
        }
    }
}

/// Whether some stored record in `s` is keyed by `n`.
pub open spec fn has_stored(s: Seq<StoredUserV>, n: Seq<u8>) -> bool {
    exists|i: int| 0 <= i < s.len() && s[i].username == n
}

/// The index of the stored record keyed by `n`.
pub open spec fn ix_of_stored(s: Seq<StoredUserV>, n: Seq<u8>) -> int {
    choose|i: int| 0 <= i < s.len() && s[i].username == n
}

/// No two stored records share a username.
pub open spec fn unique_stored(s: Seq<StoredUserV>) -> bool {
    forall|i: int, j: int| 0 <= i < j < s.len() ==> s[i].username != s[j].username
}

/// With unique names, an index holding `n` is the index `ix_of_stored` picks.
pub proof fn lemma_ix_of_stored(s: Seq<StoredUserV>, n: Seq<u8>, i: int)
    requires
        unique_stored(s),
        0 <= i < s.len(),
        s[i].username == n,
    ensures
        has_stored(s, n),
        ix_of_stored(s, n) == i,
{
    assert(has_stored(s, n));
    let k = ix_of_stored(s, n);
    if k != i {
        if k < i {
            assert(s[k].username != s[i].username);
        } else {
            assert(s[i].username != s[k].username);
        }
    }
}

/// An error from a registry mutation.
#[derive(Clone, Copy, PartialEq, Eq, Structural, Debug)]
pub enum UserListError {
    /// The username is already registered.
    Conflict,
    /// Registration was attempted without a password.
    MissingPassword,
    /// The username is not registered.
    NotFound,
}

impl UserListError {
    /// The error message reported to a client.
    pub fn message(&self) -> (r: Vec<u8>)
        ensures
            self is Conflict ==> r@ == crate::text::spec_msg_taken(),
            self is MissingPassword ==> r@ == crate::text::spec_msg_password_required(),
            self is NotFound ==> r@ == crate::text::spec_msg_remove_failed(),
    {
        match self {
            UserListError::Conflict => crate::text::msg_taken(),
            UserListError::MissingPassword => crate::text::msg_password_required(),
            UserListError::NotFound => crate::text::msg_remove_failed(),
        }
    }
}

/// The freshly registered in-memory record: offline since `now`, empty log,
/// no keep-alive, empty profile.
pub open spec fn spec_registered(n: Seq<u8>, h: Seq<u8>, now: u64) -> UserV {
    UserV {
        username: n,
        hash: h,
        status: StatusV { online: false, text: None, since: now },
        bumped: None,
        log: Seq::empty(),
        website: None,
        social: Seq::empty(),
        bio: None,
    }
}

/// The freshly registered stored record.
pub open spec fn spec_stored_new(n: Seq<u8>, h: Seq<u8>) -> StoredUserV {
    StoredUserV { username: n, hash: h, website: None, social: Seq::empty(), bio: None }
}

/// The in-memory record a stored record loads into: carried identity,
/// digest and profile; offline since `now`; empty log.
pub open spec fn spec_loaded(su: StoredUserV, now: u64) -> UserV {
    UserV {
        username: su.username,
        hash: su.hash,
        status: StatusV { online: false, text: None, since: now },
        bumped: None,
        log: Seq::empty(),
        website: su.website,
        social: su.social,
        bio: su.bio,
    }
}

/// The record `setStatus` leaves: the requested flag, the requested text
/// or the previous one, `since = now`, and the keep-alive stamp cleared —
/// a login starts the online period afresh, and an offline user carries no
/// stamp at all.
pub open spec fn spec_set_status(u: UserV, online: bool, text: Option<Seq<u8>>, now: u64) -> UserV {
    UserV {
        status: StatusV {
            online: online,
            text: if text is Some {
                text
            } else {
                u.status.text
            },
            since: now,
        },
        bumped: None,
        ..u
    }
}

/// The registry: every known user, in registration order.  It is the single
/// source of truth in memory; the backing store is modelled by a separate
/// list of `StoredUser` records that the mutating operations keep aligned.
pub struct UserList {
    pub users: Vec<User>,
}

impl View for UserList {
    type V = Seq<UserV>;

    open spec fn view(&self) -> Seq<UserV> {
        Seq::new(self.users@.len(), |i: int| self.users@[i]@)
    }
}

impl Default for UserList {
    /// An empty registry.
    fn default() -> (r: UserList)
        ensures
            r@ =~= Seq::<UserV>::empty(),
    {
        UserList { users: Vec::new() }
    }
}

impl UserList {
    /// Usernames are unique.
    pub open spec fn wf(&self) -> bool {
        unique_names(self@)
    }

    /// The index of the record keyed by `name`, if any.
    pub fn find_ix(&self, name: &[u8]) -> (r: Option<usize>)
        ensures
            match r {
                Some(i) => i < self@.len() && self@[i as int].username == name@ && has_name(
                    self@,
                    name@,
                ) && forall|j: int| 0 <= j < i ==> self@[j].username != name@,
                None => !has_name(self@, name@),
            },
    {
        let mut i: usize = 0;
        while i < self.users.len()
            invariant
                i <= self@.len(),
                self@.len() == self.users@.len(),
                forall|j: int| 0 <= j < i ==> self@[j].username != name@,
            decreases self@.len() - i,
        {
            if bytes_eq(self.users[i].username.as_slice(), name) {
                return Some(i);
            }
            i = i + 1;
        }
        None
    }

    /// Whether `name` is registered.
    pub fn contains(&self, name: &[u8]) -> (r: bool)
        ensures
            r == has_name(self@, name@),
    {
        match self.find_ix(name) {
            Some(_) => true,
            None => false,
        }
    }

    /// The record registered under `name`, if any: exactly when `name` is
    /// registered, the record `spec_lookup` describes.
    pub fn lookup(&self, name: &[u8]) -> (r: Option<&User>)
        requires
            self.wf(),
        ensures
            match r {
                Some(u) => spec_lookup(self@, name@) == Some(u@),
                None => spec_lookup(self@, name@) is None,
            },
    {
        match self.find_ix(name) {
            Some(i) => {
                proof {
                    lemma_ix_of(self@, name@, i as int);
                }
                Some(&self.users[i])
            },
            None => None,
        }
    }

    /// Number of registered users.
    pub fn len(&self) -> (r: usize)
        ensures
            r == self@.len(),
    {
        self.users.len()
    }
}


/// Membership depends only on the usernames, position by position.
pub proof fn lemma_same_names_iff(a: Seq<UserV>, b: Seq<UserV>)
    requires
        a.len() == b.len(),
        forall|k: int| 0 <= k < a.len() ==> b[k].username == a[k].username,
    ensures
        forall|n: Seq<u8>| #![auto] has_name(a, n) <==> has_name(b, n),
{
    assert forall|n: Seq<u8>| #![auto] has_name(a, n) <==> has_name(b, n) by {
        if has_name(a, n) {
            let i = choose|i: int| 0 <= i < a.len() && a[i].username == n;
            assert(b[i].username == n);
        }
        if has_name(b, n) {
            let i = choose|i: int| 0 <= i < b.len() && b[i].username == n;
            assert(a[i].username == n);
        }
    }
}

/// Uniqueness depends only on the usernames, position by position.
pub proof fn lemma_unique_same(a: Seq<UserV>, b: Seq<UserV>)
    requires
        unique_names(a),
        a.len() == b.len(),
        forall|k: int| 0 <= k < a.len() ==> b[k].username == a[k].username,
    ensures
        unique_names(b),
{
}

/// Pushing a fresh name keeps names unique; membership afterwards is
/// membership before or the new name.
pub proof fn lemma_push_name(s: Seq<UserV>, u: UserV)
    ensures
        unique_names(s) && !has_name(s, u.username) ==> unique_names(s.push(u)),
        forall|n: Seq<u8>| #![auto] has_name(s.push(u), n) <==> (has_name(s, n) || u.username == n),
{
    assert forall|n: Seq<u8>| #![auto] has_name(s.push(u), n) implies (has_name(s, n)
        || u.username == n) by {
        let i = choose|i: int| 0 <= i < s.push(u).len() && s.push(u)[i].username == n;
        if i < s.len() {
            assert(s[i].username == n);
        }
    }
    assert forall|n: Seq<u8>| #![auto] (has_name(s, n) || u.username == n) implies has_name(
        s.push(u),
        n,
    ) by {
        if has_name(s, n) {
            let i = choose|i: int| 0 <= i < s.len() && s[i].username == n;
            assert(s.push(u)[i].username == n);
        } else {
            assert(s.push(u)[s.len() as int].username == n);
        }
    }
}

/// Removing an entry from a uniquely named list keeps names unique, removes
/// exactly that entry's name, and keeps every other name.
pub proof fn lemma_remove_name(s: Seq<UserV>, i: int)
    requires
        unique_names(s),
        0 <= i < s.len(),
    ensures
        unique_names(s.remove(i)),
        forall|n: Seq<u8>| #![auto]
            has_name(s.remove(i), n) <==> (has_name(s, n) && n != s[i].username),
{
    let t = s.remove(i);
    assert forall|n: Seq<u8>| #![auto] has_name(t, n) implies (has_name(s, n) && n
        != s[i].username) by {
        let j = choose|j: int| 0 <= j < t.len() && t[j].username == n;
        if j < i {
            assert(s[j].username == n);
            assert(s[j].username != s[i].username);
        } else {
            assert(s[j + 1].username == n);
            assert(s[i].username != s[j + 1].username);
        }
    }
    assert forall|n: Seq<u8>| #![auto] (has_name(s, n) && n != s[i].username) implies has_name(
        t,
        n,
    ) by {
        let j = choose|j: int| 0 <= j < s.len() && s[j].username == n;
        if j < i {
            assert(t[j].username == n);
        } else {
            assert(j > i);
            assert(t[j - 1].username == n);
        }
    }
}

/// The stored-record counterparts of the two lemmas above.
pub proof fn lemma_stored_push_name(s: Seq<StoredUserV>, u: StoredUserV)
    ensures
        unique_stored(s) && !has_stored(s, u.username) ==> unique_stored(s.push(u)),
        forall|n: Seq<u8>| #![auto]
            has_stored(s.push(u), n) <==> (has_stored(s, n) || u.username == n),
{
    assert forall|n: Seq<u8>| #![auto] has_stored(s.push(u), n) implies (has_stored(s, n)
        || u.username == n) by {
        let i = choose|i: int| 0 <= i < s.push(u).len() && s.push(u)[i].username == n;
        if i < s.len() {
            assert(s[i].username == n);
        }
    }
    assert forall|n: Seq<u8>| #![auto] (has_stored(s, n) || u.username == n) implies has_stored(
        s.push(u),
        n,
    ) by {
        if has_stored(s, n) {
            let i = choose|i: int| 0 <= i < s.len() && s[i].username == n;
            assert(s.push(u)[i].username == n);
        } else {
            assert(s.push(u)[s.len() as int].username == n);
        }
    }
}

pub proof fn lemma_stored_remove_name(s: Seq<StoredUserV>, i: int)
    requires
        unique_stored(s),
        0 <= i < s.len(),
    ensures
        unique_stored(s.remove(i)),
        forall|n: Seq<u8>| #![auto]
            has_stored(s.remove(i), n) <==> (has_stored(s, n) && n != s[i].username),
{
    let t = s.remove(i);
    assert forall|n: Seq<u8>| #![auto] has_stored(t, n) implies (has_stored(s, n) && n
        != s[i].username) by {
        let j = choose|j: int| 0 <= j < t.len() && t[j].username == n;
        if j < i {
            assert(s[j].username == n);
            assert(s[j].username != s[i].username);
        } else {
            assert(s[j + 1].username == n);
            assert(s[i].username != s[j + 1].username);
        }
    }
    assert forall|n: Seq<u8>| #![auto] (has_stored(s, n) && n != s[i].username) implies has_stored(
        t,
        n,
    ) by {
        let j = choose|j: int| 0 <= j < s.len() && s[j].username == n;
        if j < i {
            assert(t[j].username == n);
        } else {
            assert(j > i);
            assert(t[j - 1].username == n);
        }
    }
}

/// The greatest index in `s` holding `n`; meaningful when some index does.
pub open spec fn last_ix_stored(s: Seq<StoredUserV>, n: Seq<u8>) -> int
    decreases s.len(),
{
    if s.len() == 0 {
        -1
    } else if s.last().username == n {
        s.len() - 1
    } else {
        last_ix_stored(s.drop_last(), n)
    }
}

/// `last_ix_stored` is in bounds, holds `n`, and nothing after it does.
pub proof fn lemma_last_ix_stored(s: Seq<StoredUserV>, n: Seq<u8>)
    requires
        has_stored(s, n),
    ensures
        0 <= last_ix_stored(s, n) < s.len(),
        s[last_ix_stored(s, n)].username == n,
        forall|j: int| last_ix_stored(s, n) < j < s.len() ==> s[j].username != n,
    decreases s.len(),
{
    if s.last().username == n {
    } else {
        let w = choose|w: int| 0 <= w < s.len() && s[w].username == n;
        assert(w < s.len() - 1);
        assert(s.drop_last()[w].username == n);
        assert(has_stored(s.drop_last(), n));
        lemma_last_ix_stored(s.drop_last(), n);
        let r = last_ix_stored(s.drop_last(), n);
        assert(s[r] == s.drop_last()[r]);
        assert forall|j: int| r < j < s.len() implies s[j].username != n by {
            if j < s.len() - 1 {
                assert(s[j] == s.drop_last()[j]);
            }
        }
    }
}

/// Removing another name's record does not change what `n` looks up to.
pub proof fn lemma_remove_keeps_lookup(s: Seq<UserV>, i: int, n: Seq<u8>)
    requires
        unique_names(s),
        0 <= i < s.len(),
        s[i].username != n,
        has_name(s, n),
    ensures
        has_name(s.remove(i), n),
        s.remove(i)[ix_of(s.remove(i), n)] == s[ix_of(s, n)],
{
    lemma_remove_name(s, i);
    let w = ix_of(s, n);
    assert(0 <= w < s.len() && s[w].username == n);
    if w < i {
        assert(s.remove(i)[w] == s[w]);
        lemma_ix_of(s.remove(i), n, w);
    } else {
        assert(w > i);
        assert(s.remove(i)[w - 1] == s[w]);
        lemma_ix_of(s.remove(i), n, w - 1);
    }
}

/// Pushing a record with a fresh name does not change what `n` looks up to.
pub proof fn lemma_push_keeps_lookup(s: Seq<UserV>, u: UserV, n: Seq<u8>)
    requires
        unique_names(s),
        !has_name(s, u.username),
        u.username != n,
        has_name(s, n),
    ensures
        has_name(s.push(u), n),
        s.push(u)[ix_of(s.push(u), n)] == s[ix_of(s, n)],
{
    lemma_push_name(s, u);
    let w = ix_of(s, n);
    assert(0 <= w < s.len() && s[w].username == n);
    assert(s.push(u)[w] == s[w]);
    lemma_ix_of(s.push(u), n, w);
}

/// The index of the stored record keyed by `name`, if any.
pub fn store_find_ix(store: &Vec<StoredUser>, name: &[u8]) -> (r: Option<usize>)
    ensures
        match r {
            Some(i) => i < store@.len() && store_v(store@)[i as int].username == name@
                && has_stored(store_v(store@), name@) && forall|j: int|
                0 <= j < i ==> store_v(store@)[j].username != name@,
            None => !has_stored(store_v(store@), name@),
        },
{
    let mut i: usize = 0;
    while i < store.len()
        invariant
            i <= store@.len(),
            forall|j: int| 0 <= j < i ==> store_v(store@)[j].username != name@,
        decreases store@.len() - i,
    {
        if bytes_eq(store[i].username.as_slice(), name) {
            return Some(i);
        }
        i = i + 1;
    }
    None
}

impl UserList {
    /// Sets a user's presence: the requested flag, the requested text or —
    /// when none is supplied — the previous one, and `since = now`; the
    /// keep-alive stamp is cleared by every transition.  Returns whether
    /// the user exists; an unknown name changes nothing.
    pub fn set_status(&mut self, name: &[u8], online: bool, text: Option<Vec<u8>>, now: u64) -> (r:
        bool)
        requires
            old(self).wf(),
        ensures
            final(self).wf(),
            r == has_name(old(self)@, name@),
            !r ==> final(self)@ == old(self)@,
            r ==> final(self)@ =~= old(self)@.update(
                ix_of(old(self)@, name@),
                spec_set_status(old(self)@[ix_of(old(self)@, name@)], online, opt_v(text), now),
            ),
    {
        match self.find_ix(name) {
            Some(i) => {
                proof {
                    lemma_ix_of(self@, name@, i as int);
                }
                let mut u = self.users.remove(i);
                let newtext = match text {
                    Some(t) => Some(t),
                    None => clone_opt_bytes(&u.status.text),
                };
                u.set_status(Status { online: online, text: newtext, since: now });
                u.bumped = None;
                self.users.insert(i, u);
                proof {
                    assert(final(self)@ =~= old(self)@.update(
                        i as int,
                        spec_set_status(old(self)@[i as int], online, opt_v(text), now),
                    ));
                    lemma_unique_same(old(self)@, final(self)@);
                }
                true
            },
            None => false,
        }
    }

    /// Records a keep-alive for `name`: true exactly when the user exists
    /// and is online, in which case only their `bumped` stamp changes;
    /// otherwise nothing changes.
    pub fn bump(&mut self, name: &[u8], now: u64) -> (r: bool)
        requires
            old(self).wf(),
        ensures
            final(self).wf(),
            r == (has_name(old(self)@, name@) && old(self)@[ix_of(
                old(self)@,
                name@,
            )].status.online),
            final(self)@.len() == old(self)@.len(),
            forall|k: int| #![auto]
                0 <= k < old(self)@.len() ==> final(self)@[k].status == old(self)@[k].status,
            !r ==> final(self)@ == old(self)@,
            r ==> final(self)@ =~= old(self)@.update(
                ix_of(old(self)@, name@),
                UserV { bumped: Some(now), ..old(self)@[ix_of(old(self)@, name@)] },
            ),
    {
        match self.find_ix(name) {
            Some(i) => {
                proof {
                    lemma_ix_of(self@, name@, i as int);
                }
                let mut u = self.users.remove(i);
                let r = u.bump(now);
                self.users.insert(i, u);
                proof {
                    if r {
                        assert(final(self)@ =~= old(self)@.update(
                            i as int,
                            UserV { bumped: Some(now), ..old(self)@[i as int] },
                        ));
                        lemma_unique_same(old(self)@, final(self)@);
                    } else {
                        assert(final(self)@ =~= old(self)@);
                    }
                }
                r
            },
            None => false,
        }
    }

    /// Appends a visit to `target`'s log, collapsing a repeat of the last
    /// entry.  Returns whether the target exists; an unknown target changes
    /// nothing.
    pub fn visit(&mut self, target: &[u8], entry: UserInfo) -> (r: bool)
        requires
            old(self).wf(),
        ensures
            final(self).wf(),
            r == has_name(old(self)@, target@),
            !r ==> final(self)@ == old(self)@,
            r ==> final(self)@ =~= old(self)@.update(
                ix_of(old(self)@, target@),
                UserV {
                    log: spec_add_log(old(self)@[ix_of(old(self)@, target@)].log, entry@),
                    ..old(self)@[ix_of(old(self)@, target@)]
                },
            ),
    {
        match self.find_ix(target) {
            Some(i) => {
                proof {
                    lemma_ix_of(self@, target@, i as int);
                }
                let mut u = self.users.remove(i);
                u.add_log(entry);
                self.users.insert(i, u);
                proof {
                    assert(final(self)@ =~= old(self)@.update(
                        i as int,
                        UserV {
                            log: spec_add_log(old(self)@[i as int].log, entry@),
                            ..old(self)@[i as int]
                        },
                    ));
                    lemma_unique_same(old(self)@, final(self)@);
                }
                true
            },
            None => false,
        }
    }

    /// Drains `name`'s visitor log: returns everything accumulated and
    /// leaves the log empty, so draining again returns nothing until new
    /// visits occur.  An unknown name returns `None` and changes nothing.
    pub fn drain_log(&mut self, name: &[u8]) -> (r: Option<Vec<UserInfo>>)
        requires
            old(self).wf(),
        ensures
            final(self).wf(),
            r is Some <==> has_name(old(self)@, name@),
            r is None ==> final(self)@ == old(self)@,
            r matches Some(l) ==> infos_v(l@) == old(self)@[ix_of(old(self)@, name@)].log
                && final(self)@ =~= old(self)@.update(
                ix_of(old(self)@, name@),
                UserV {
                    log: Seq::<UserInfoV>::empty(),
                    ..old(self)@[ix_of(old(self)@, name@)]
                },
            ),
    {
        match self.find_ix(name) {
            Some(i) => {
                proof {
                    lemma_ix_of(self@, name@, i as int);
                }
                let mut u = self.users.remove(i);
                let l = u.log();
                self.users.insert(i, u);
                proof {
                    assert(final(self)@ =~= old(self)@.update(
                        i as int,
                        UserV {
                            log: Seq::<UserInfoV>::empty(),
                            ..old(self)@[i as int]
                        },
                    ));
                    lemma_unique_same(old(self)@, final(self)@);
                }
                Some(l)
            },
            None => None,
        }
    }

    /// One sweep over every record: each is demoted or left exactly as
    /// `spec_swept` says.
    pub fn check_statuses(&mut self, now: u64)
        requires
            old(self).wf(),
        ensures
            final(self).wf(),
            final(self)@.len() == old(self)@.len(),
            forall|k: int| #![auto]
                0 <= k < old(self)@.len() ==> final(self)@[k] == spec_swept(old(self)@[k], now),
    {
        let mut i: usize = 0;
        while i < self.users.len()
            invariant
                i <= self.users@.len(),
                self.users@.len() == old(self).users@.len(),
                forall|k: int| #![auto]
                    0 <= k < i ==> self@[k] == spec_swept(old(self)@[k], now),
                forall|k: int| #![auto]
                    i <= k < self.users@.len() ==> self.users@[k] == old(self).users@[k],
            decreases self.users@.len() - i,
        {
            let ghost headv = self@;
            let ghost prev = self.users@;
            let mut u = self.users.remove(i);
            proof {
                assert(u@ == old(self)@[i as int]);
            }
            u.check_status(now);
            self.users.insert(i, u);
            proof {
                assert(self.users@ =~= prev.update(i as int, u));
                assert(self@[i as int] == spec_swept(old(self)@[i as int], now));
                assert forall|k: int| #![auto] 0 <= k < i implies self@[k] == spec_swept(
                    old(self)@[k],
                    now,
                ) by {
                    assert(self.users@[k] == prev[k]);
                    assert(headv[k] == spec_swept(old(self)@[k], now));
                    assert(headv[k] == prev[k]@);
                }
            }
            i = i + 1;
        }
        proof {
            assert forall|k: int| 0 <= k < final(self)@.len() implies final(self)@[k].username
                == old(self)@[k].username by {
                assert(final(self)@[k] == spec_swept(old(self)@[k], now));
            }
            lemma_unique_same(old(self)@, final(self)@);
        }
    }
}


impl UserList {
    /// Builds the registry from the backing store's records: every stored
    /// name becomes a registered user, offline since `now`, with an empty
    /// log.  A name stored twice keeps its last record.  When the store's
    /// names are unique — the invariant every store this library writes
    /// satisfies — the registry is the records, in order.
    pub fn load(records: &Vec<StoredUser>, now: u64) -> (r: UserList)
        ensures
            r.wf(),
            forall|n: Seq<u8>| #![auto] has_name(r@, n) <==> has_stored(store_v(records@), n),
            forall|n: Seq<u8>| #![auto]
                has_stored(store_v(records@), n) ==> spec_lookup(r@, n) == Some(
                    spec_loaded(
                        store_v(records@)[last_ix_stored(store_v(records@), n)],
                        now,
                    ),
                ),
            unique_stored(store_v(records@)) ==> (r@.len() == records@.len() && forall|k: int|
                #![auto]
                0 <= k < records@.len() ==> r@[k] == spec_loaded(store_v(records@)[k], now)),
    {
        let mut r = UserList { users: Vec::new() };
        let mut j: usize = 0;
        while j < records.len()
            invariant
                j <= records@.len(),
                r.wf(),
                forall|n: Seq<u8>| #![auto]
                    has_name(r@, n) <==> has_stored(store_v(records@).take(j as int), n),
                forall|n: Seq<u8>| #![auto]
                    has_stored(store_v(records@).take(j as int), n) ==> r@[ix_of(r@, n)]
                        == spec_loaded(
                        store_v(records@).take(j as int)[last_ix_stored(
                            store_v(records@).take(j as int),
                            n,
                        )],
                        now,
                    ),
                unique_stored(store_v(records@)) ==> (r@.len() == j && forall|k: int|
                    #![auto]
                    0 <= k < j ==> r@[k] == spec_loaded(store_v(records@)[k], now)),
            decreases records@.len() - j,
        {
            let ghost prefix = store_v(records@).take(j as int);
            let rec = &records[j];
            let ghost oldv = r@;
            let ghost mut removed: Option<int> = None;
            match r.find_ix(rec.username.as_slice()) {
                Some(i) => {
                    proof {
                        removed = Some(i as int);
                        lemma_remove_name(oldv, i as int);
                        if unique_stored(store_v(records@)) {
                            assert(has_stored(prefix, rec@.username));
                            let w = choose|w: int|
                                0 <= w < prefix.len() && prefix[w].username == rec@.username;
                            assert(store_v(records@)[w].username == store_v(
                                records@,
                            )[j as int].username);
                            assert(false);
                        }
                    }
                    let _ = r.users.remove(i);
                    proof {
                        assert(r@ =~= oldv.remove(i as int));
                    }
                },
                None => {},
            }
            let ghost midv = r@;
            proof {
                assert(r.wf());
                assert(!has_name(midv, rec@.username));
                assert(forall|n: Seq<u8>| #![auto]
                    n != rec@.username ==> (has_name(midv, n) <==> has_name(oldv, n)));
            }
            let user = User {
                username: to_vec(rec.username.as_slice()),
                hash: to_vec(rec.hash.as_slice()),
                status: Status::offline(now),
                bumped: None,
                log: Vec::new(),
                website: clone_opt_bytes(&rec.website),
                social: clone_social(&rec.social),
                bio: clone_opt_bytes(&rec.bio),
            };
            proof {
                assert(user@ == spec_loaded(store_v(records@)[j as int], now));
            }
            let ghost userv = user@;
            r.users.push(user);
            proof {
                assert(r@ =~= midv.push(userv));
                lemma_push_name(midv, userv);
                assert(r.wf());
                let ghost ext = store_v(records@).take(j + 1);
                assert(ext =~= prefix.push(store_v(records@)[j as int]));
                assert(ext.drop_last() =~= prefix);
                assert(ext.last() == store_v(records@)[j as int]);
                assert forall|n: Seq<u8>| #![auto] has_name(r@, n) <==> has_stored(ext, n) by {
                    if has_name(r@, n) {
                        if n == userv.username {
                            assert(ext[j as int].username == n);
                            assert(has_stored(ext, n));
                        } else {
                            assert(has_name(midv, n));
                            assert(has_name(oldv, n));
                            assert(has_stored(prefix, n));
                            let w = choose|w: int|
                                0 <= w < prefix.len() && prefix[w].username == n;
                            assert(ext[w].username == n);
                            assert(has_stored(ext, n));
                        }
                    }
                    if has_stored(ext, n) {
                        let w = choose|w: int|
                            0 <= w < ext.len() && #[trigger] ext[w].username == n;
                        if w < j && n != userv.username {
                            assert(prefix[w].username == n);
                            assert(has_stored(prefix, n));
                            assert(has_name(oldv, n));
                            assert(has_name(midv, n));
                            let y = choose|y: int| 0 <= y < midv.len() && midv[y].username == n;
                            assert(r@[y].username == n);
                            assert(has_name(r@, n));
                        } else {
                            assert(n == userv.username);
                            assert(r@[r@.len() - 1].username == n);
                            assert(has_name(r@, n));
                        }
                    }
                }
                assert forall|n: Seq<u8>| #![auto] has_stored(ext, n) implies r@[ix_of(r@, n)]
                    == spec_loaded(ext[last_ix_stored(ext, n)], now) by {
                    if n == userv.username {
                        // The fresh record is the last entry and the last
                        // occurrence of its name in the extended prefix.
                        assert(last_ix_stored(ext, n) == j);
                        assert(r@[midv.len() as int] == userv);
                        lemma_ix_of(r@, n, midv.len() as int);
                        assert(ext[j as int] == store_v(records@)[j as int]);
                    } else {
                        // Another name: its stored occurrences and its
                        // surviving record are untouched this round.
                        assert(last_ix_stored(ext, n) == last_ix_stored(prefix, n));
                        let w = choose|w: int|
                            0 <= w < ext.len() && #[trigger] ext[w].username == n;
                        assert(w != j);
                        assert(prefix[w].username == n);
                        assert(has_stored(prefix, n));
                        assert(has_name(oldv, n));
                        lemma_last_ix_stored(prefix, n);
                        assert(ext[last_ix_stored(ext, n)] == prefix[last_ix_stored(prefix, n)]);
                        let ghost v = spec_loaded(prefix[last_ix_stored(prefix, n)], now);
                        assert(oldv[ix_of(oldv, n)] == v);
                        match removed {
                            Some(i) => {
                                assert(midv == oldv.remove(i));
                                assert(oldv[i].username == rec@.username);
                                lemma_remove_keeps_lookup(oldv, i, n);
                                assert(midv[ix_of(midv, n)] == v);
                            },
                            None => {
                                assert(midv == oldv);
                            },
                        }
                        lemma_push_keeps_lookup(midv, userv, n);
                        assert(r@[ix_of(r@, n)] == v);
                    }
                }
            }
            j = j + 1;
        }
        proof {
            assert(store_v(records@).take(records@.len() as int) =~= store_v(records@));
            assert forall|n: Seq<u8>| #![auto] has_stored(store_v(records@), n) implies
                spec_lookup(r@, n) == Some(
                spec_loaded(store_v(records@)[last_ix_stored(store_v(records@), n)], now),
            ) by {
                assert(has_name(r@, n));
            }
        }
        r
    }

    /// Registers a new user: refused with `Conflict` when the name is taken
    /// and with `MissingPassword` when no password accompanies it, leaving
    /// everything unchanged; otherwise the password's digest and the new name
    /// are appended to the backing store's records and to the registry, the
    /// new user offline since `now`.
    pub fn register(
        &mut self,
        username: &[u8],
        password: Option<&Vec<u8>>,
        store: &mut Vec<StoredUser>,
        now: u64,
    ) -> (r: Result<(), UserListError>)
        requires
            old(self).wf(),
        ensures
            final(self).wf(),
            r is Ok <==> (!has_name(old(self)@, username@) && password is Some),
            r is Err ==> final(self)@ == old(self)@ && final(store)@ == old(store)@,
            (match r {
                Err(e) => (e is Conflict <==> has_name(old(self)@, username@)) && (
                e is MissingPassword <==> (!has_name(old(self)@, username@) && password is None)),
                Ok(()) => true,
            }),
            (match password {
                Some(p) => r is Ok ==> final(self)@ =~= old(self)@.push(
                    spec_registered(username@, sha256_hex_of(p@), now),
                ) && store_v(final(store)@) =~= store_v(old(store)@).push(
                    spec_stored_new(username@, sha256_hex_of(p@)),
                ),
                None => true,
            }),
    {
        if self.contains(username) {
            return Err(UserListError::Conflict);
        }
        let p = match password {
            Some(p) => p,
            None => {
                return Err(UserListError::MissingPassword);
            },
        };
        let h = sha256_hex(p.as_slice());
        let rec = StoredUser {
            username: to_vec(username),
            hash: to_vec(h.as_slice()),
            website: None,
            social: Vec::new(),
            bio: None,
        };
        proof {
            assert(rec@ == spec_stored_new(username@, sha256_hex_of(p@)));
        }
        store.push(rec);
        let user = User {
            username: to_vec(username),
            hash: h,
            status: Status::offline(now),
            bumped: None,
            log: Vec::new(),
            website: None,
            social: Vec::new(),
            bio: None,
        };
        proof {
            assert(user@ == spec_registered(username@, sha256_hex_of(p@), now));
        }
        let ghost oldv = self@;
        self.users.push(user);
        proof {
            assert(self@ =~= oldv.push(spec_registered(username@, sha256_hex_of(p@), now)));
            lemma_push_name(oldv, spec_registered(username@, sha256_hex_of(p@), now));
            assert(store_v(store@) =~= store_v(old(store)@).push(
                spec_stored_new(username@, sha256_hex_of(p@)),
            ));
        }
        Ok(())
    }

    /// Deregisters a user: the backing store's records lose every entry
    /// under that name (there is at most one), and the registry loses the
    /// record.  A name absent from the registry is refused with `NotFound`
    /// after the store rewrite, the registry unchanged.
    pub fn remove(&mut self, username: &[u8], store: &mut Vec<StoredUser>) -> (r: Result<
        (),
        UserListError,
    >)
        requires
            old(self).wf(),
            unique_stored(store_v(old(store)@)),
        ensures
            final(self).wf(),
            unique_stored(store_v(final(store)@)),
            (if has_stored(store_v(old(store)@), username@) {
                store_v(final(store)@) =~= store_v(old(store)@).remove(
                    ix_of_stored(store_v(old(store)@), username@),
                )
            } else {
                final(store)@ == old(store)@
            }),
            r is Ok <==> has_name(old(self)@, username@),
            r is Err ==> final(self)@ == old(self)@ && r == Err::<(), UserListError>(
                UserListError::NotFound,
            ),
            r is Ok ==> final(self)@ =~= old(self)@.remove(ix_of(old(self)@, username@)),
    {
        match store_find_ix(store, username) {
            Some(si) => {
                proof {
                    lemma_ix_of_stored(store_v(store@), username@, si as int);
                    lemma_stored_remove_name(store_v(store@), si as int);
                }
                let ghost olds = store_v(store@);
                let _ = store.remove(si);
                proof {
                    assert(store_v(store@) =~= olds.remove(si as int));
                }
            },
            None => {},
        }
        match self.find_ix(username) {
            Some(i) => {
                proof {
                    lemma_ix_of(self@, username@, i as int);
                    lemma_remove_name(self@, i as int);
                }
                let ghost oldv = self@;
                let _ = self.users.remove(i);
                proof {
                    assert(self@ =~= oldv.remove(i as int));
                }
                Ok(())
            },
            None => Err(UserListError::NotFound),
        }
    }
}


/// A copy of the backing store's records.
pub fn clone_store(store: &Vec<StoredUser>) -> (r: Vec<StoredUser>)
    ensures
        r@.len() == store@.len(),
        forall|k: int| 0 <= k < store@.len() ==> #[trigger] r@[k]@ == store@[k]@,
        store_v(r@) =~= store_v(store@),
{
    let mut r: Vec<StoredUser> = Vec::new();
    let mut i: usize = 0;
    while i < store.len()
        invariant
            i <= store@.len(),
            r@.len() == i,
            forall|k: int| 0 <= k < i ==> #[trigger] r@[k]@ == store@[k]@,
        decreases store@.len() - i,
    {
        r.push(store[i].duplicate());
        i = i + 1;
    }
    proof {
        assert(store_v(r@) =~= store_v(store@));
    }
    r
}

/// The in-memory record a stored record becomes, offline since `now`.
pub fn loaded_user(rec: &StoredUser, now: u64) -> (r: User)
    ensures
        r@ == spec_loaded(rec@, now),
{
    User {
        username: to_vec(rec.username.as_slice()),
        hash: to_vec(rec.hash.as_slice()),
        status: Status::offline(now),
        bumped: None,
        log: Vec::new(),
        website: clone_opt_bytes(&rec.website),
        social: clone_social(&rec.social),
        bio: clone_opt_bytes(&rec.bio),
    }
}

} // verus!
