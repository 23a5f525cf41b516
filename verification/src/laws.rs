//! The registry's governing properties, stated once and proved, over the
//! same spec functions the operations' contracts use.

use vstd::prelude::*;
use crate::userlist::SWEEP_THRESHOLD;
use crate::userlist::StoredUserV;
use crate::userlist::UserInfoV;
use crate::userlist::UserV;
use crate::userlist::has_name;
use crate::userlist::has_stored;
use crate::userlist::ix_of;
use crate::userlist::ix_of_stored;
use crate::userlist::lemma_ix_of;
use crate::userlist::lemma_ix_of_stored;
use crate::userlist::lemma_push_name;
use crate::userlist::lemma_remove_name;
use crate::userlist::lemma_stored_push_name;
use crate::userlist::lemma_stored_remove_name;
use crate::userlist::spec_elapsed;
use crate::userlist::spec_lookup;
use crate::userlist::spec_registered;
use crate::userlist::spec_stored_new;
use crate::userlist::spec_swept;
use crate::userlist::unique_names;
use crate::userlist::unique_stored;

verus! {

/// Looking a username up immediately after registering it finds the fresh
/// record, and that record is offline: `register` appends
/// `spec_registered`, whose status has `online == false`.
pub proof fn lemma_lookup_after_register(pre: Seq<UserV>, n: Seq<u8>, h: Seq<u8>, now: u64)
    requires
        unique_names(pre),
        !has_name(pre, n),
    ensures
        spec_lookup(pre.push(spec_registered(n, h, now)), n) == Some(spec_registered(n, h, now)),
        spec_registered(n, h, now).status.online == false,
{
    let post = pre.push(spec_registered(n, h, now));
    lemma_push_name(pre, spec_registered(n, h, now));
    assert(post[pre.len() as int] == spec_registered(n, h, now));
    lemma_ix_of(post, n, pre.len() as int);
}

/// A sweep at `now` demotes an online user with no keep-alive whose status
/// is at least the threshold old: offline, with `since` reset to the sweep
/// time and the text kept.
pub proof fn lemma_sweep_expires(u: UserV, now: u64)
    requires
        u.status.online,
        u.bumped is None,
        spec_elapsed(now, u.status.since) >= SWEEP_THRESHOLD,
    ensures
        spec_swept(u, now).status.online == false,
        spec_swept(u, now).status.since == now,
        spec_swept(u, now).status.text == u.status.text,
        spec_swept(u, now).bumped is None,
{
}

/// A sweep at `now` leaves an online user untouched while their keep-alive
/// is fresher than the threshold: still online, the stamp still set.
pub proof fn lemma_sweep_spares_bumped(u: UserV, now: u64, b: u64)
    requires
        u.status.online,
        u.bumped == Some(b),
        spec_elapsed(now, b) < SWEEP_THRESHOLD,
    ensures
        spec_swept(u, now) == u,
        spec_swept(u, now).status.online,
        spec_swept(u, now).bumped == Some(b),
{
}

/// Draining a log empties it: after one drain, the same user's log is
/// empty, so a second drain returns nothing until new visits occur.
pub proof fn lemma_drain_then_drain(pre: Seq<UserV>, n: Seq<u8>)
    requires
        unique_names(pre),
        has_name(pre, n),
    ensures
        ({
            let post = pre.update(
                ix_of(pre, n),
                UserV { log: Seq::<UserInfoV>::empty(), ..pre[ix_of(pre, n)] },
            );
            &&& unique_names(post)
            &&& has_name(post, n)
            &&& post[ix_of(post, n)].log =~= Seq::<UserInfoV>::empty()
        }),
{
    let i = ix_of(pre, n);
    let post = pre.update(i, UserV { log: Seq::<UserInfoV>::empty(), ..pre[i] });
    crate::userlist::lemma_unique_same(pre, post);
    lemma_ix_of(post, n, i);
}

/// The registration round trip: registering a fresh name puts it in the
/// registry and in the backing store's records, and removing it afterwards
/// leaves both without it.
pub proof fn lemma_register_remove_round_trip(
    pre: Seq<UserV>,
    prestore: Seq<StoredUserV>,
    n: Seq<u8>,
    h: Seq<u8>,
    now: u64,
)
    requires
        unique_names(pre),
        unique_stored(prestore),
        !has_name(pre, n),
        !has_stored(prestore, n),
    ensures
        ({
            let u1 = pre.push(spec_registered(n, h, now));
            let s1 = prestore.push(spec_stored_new(n, h));
            &&& has_name(u1, n)
            &&& has_stored(s1, n)
            &&& !has_name(u1.remove(ix_of(u1, n)), n)
            &&& !has_stored(s1.remove(ix_of_stored(s1, n)), n)
        }),
{
    let u1 = pre.push(spec_registered(n, h, now));
    let s1 = prestore.push(spec_stored_new(n, h));
    lemma_push_name(pre, spec_registered(n, h, now));
    lemma_stored_push_name(prestore, spec_stored_new(n, h));
    assert(u1[pre.len() as int] == spec_registered(n, h, now));
    lemma_ix_of(u1, n, pre.len() as int);
    assert(s1[prestore.len() as int] == spec_stored_new(n, h));
    lemma_ix_of_stored(s1, n, prestore.len() as int);
    lemma_remove_name(u1, ix_of(u1, n));
    lemma_stored_remove_name(s1, ix_of_stored(s1, n));
}

} // verus!
