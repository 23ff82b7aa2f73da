//! Finishing a batch of sessions, and spacing out the device syncs that tell
//! the homeserver about the devices that went away.
//!
//! Each user whose session is finished gets one device sync. The first one
//! is scheduled one minute out, each further one ten seconds after the
//! previous, so that a full batch does not hit the homeserver at once.

use vstd::prelude::*;

use std::collections::HashSet;

use crate::time::{minutes_in_seconds, whole_seconds, MAX_DELTA_SECONDS};

verus! {

broadcast use {vstd::std_specs::hash::group_hash_axioms, vstd::seq_lib::group_seq_properties};

/// A session about to be finished, and the user it belongs to, if any.
#[derive(Clone, Copy, Debug, PartialEq, Eq, Structural)]
pub struct SessionToExpire {
    /// The session's id.
    pub id: u128,
    /// The user the session belongs to; sessions of no user get no device sync.
    pub user_id: Option<u128>,
}

/// One step of expiring a batch, in the order the steps are carried out.
#[derive(Clone, Copy, Debug, PartialEq, Eq, Structural)]
pub enum ExpiryStep {
    /// Schedule a device sync for `user_id`, `delay_seconds` from now.
    SyncDevices { user_id: u128, delay_seconds: i64 },
    /// Finish the session `session_id`.
    Finish { session_id: u128 },
}

/// Seconds until the first device sync of a batch.
pub open spec fn first_sync_delay() -> int {
    60
}

/// Seconds between two consecutive device syncs of a batch.
pub open spec fn sync_spacing() -> int {
    10
}

/// The delay of the device sync scheduled after `k` others in the same batch.
pub open spec fn sync_delay(k: int) -> int {
    first_sync_delay() + sync_spacing() * k
}

/// The users that get a device sync, in the order of their first session.
pub open spec fn synced_users(sessions: Seq<SessionToExpire>) -> Seq<u128>
    decreases sessions.len(),
{
    if sessions.len() == 0 {
        Seq::empty()
    } else {
        let before = synced_users(sessions.drop_last());
        match sessions.last().user_id {
            Some(u) => if before.contains(u) {
                before
            } else {
                before.push(u)
            },
            None => before,
        }
    }
}

/// The steps that expire `sessions`: for each session in turn, a device sync
/// for its user when that user has none yet in this batch, then the
/// session's end.
pub open spec fn expiry_steps(sessions: Seq<SessionToExpire>) -> Seq<ExpiryStep>
    decreases sessions.len(),
{
    if sessions.len() == 0 {
        Seq::empty()
    } else {
        let earlier = sessions.drop_last();
        let last = sessions.last();
        let done = synced_users(earlier);
        let sync = match last.user_id {
            Some(u) => if done.contains(u) {
                Seq::empty()
            } else {
                seq![ExpiryStep::SyncDevices { user_id: u, delay_seconds: sync_delay(done.len() as int) as i64 }]
            },
            None => Seq::empty(),
        };
        expiry_steps(earlier) + sync + seq![ExpiryStep::Finish { session_id: last.id }]
    }
}

/// Whether every delay of the batch stays within what a `chrono::TimeDelta`
/// holds, including the one the batch ends on.
pub open spec fn sync_delays_in_range(sessions: Seq<SessionToExpire>) -> bool {
    sync_delay(synced_users(sessions).len() as int) <= MAX_DELTA_SECONDS
}

/// The users synced for a prefix are never more than those for the whole batch.
pub proof fn lemma_synced_users_grow(sessions: Seq<SessionToExpire>, i: int)
    requires
        0 <= i <= sessions.len(),
    ensures
        synced_users(sessions.take(i)).len() <= synced_users(sessions).len(),
    decreases sessions.len() - i,
{
    if i < sessions.len() {
        lemma_synced_users_grow(sessions, i + 1);
        assert(sessions.take(i + 1).drop_last() =~= sessions.take(i));
    } else {
        assert(sessions.take(i) =~= sessions);
    }
}

/// The sessions a list of steps finishes, in order.
pub open spec fn finished_ids(steps: Seq<ExpiryStep>) -> Seq<u128>
    decreases steps.len(),
{
    if steps.len() == 0 {
        Seq::empty()
    } else {
        match steps.last() {
            ExpiryStep::Finish { session_id } => finished_ids(steps.drop_last()).push(session_id),
            ExpiryStep::SyncDevices { .. } => finished_ids(steps.drop_last()),
        }
    }
}

/// The device syncs a list of steps schedules, as (user, delay) in order.
pub open spec fn sync_requests(steps: Seq<ExpiryStep>) -> Seq<(u128, i64)>
    decreases steps.len(),
{
    if steps.len() == 0 {
        Seq::empty()
    } else {
        match steps.last() {
            ExpiryStep::SyncDevices { user_id, delay_seconds } => sync_requests(steps.drop_last()).push(
                (user_id, delay_seconds),
            ),
            ExpiryStep::Finish { .. } => sync_requests(steps.drop_last()),
        }
    }
}

proof fn lemma_finished_ids_concat(a: Seq<ExpiryStep>, b: Seq<ExpiryStep>)
    ensures
        finished_ids(a + b) == finished_ids(a) + finished_ids(b),
    decreases b.len(),
{
    if b.len() == 0 {
        assert(a + b =~= a);
        assert(finished_ids(a) + finished_ids(b) =~= finished_ids(a));
    } else {
        lemma_finished_ids_concat(a, b.drop_last());
        assert((a + b).drop_last() =~= a + b.drop_last());
        assert((a + b).last() == b.last());
        match b.last() {
            ExpiryStep::Finish { session_id } => {
                assert(finished_ids(a) + finished_ids(b.drop_last()).push(session_id)
                    =~= (finished_ids(a) + finished_ids(b.drop_last())).push(session_id));
            },
            ExpiryStep::SyncDevices { .. } => {},
        }
    }
}

proof fn lemma_sync_requests_concat(a: Seq<ExpiryStep>, b: Seq<ExpiryStep>)
    ensures
        sync_requests(a + b) == sync_requests(a) + sync_requests(b),
    decreases b.len(),
{
    if b.len() == 0 {
        assert(a + b =~= a);
        assert(sync_requests(a) + sync_requests(b) =~= sync_requests(a));
    } else {
        lemma_sync_requests_concat(a, b.drop_last());
        assert((a + b).drop_last() =~= a + b.drop_last());
        assert((a + b).last() == b.last());
        match b.last() {
            ExpiryStep::SyncDevices { user_id, delay_seconds } => {
                assert(sync_requests(a) + sync_requests(b.drop_last()).push((user_id, delay_seconds))
                    =~= (sync_requests(a) + sync_requests(b.drop_last())).push((user_id, delay_seconds)));
            },
            ExpiryStep::Finish { .. } => {},
        }
    }
}

/// Expiring a batch finishes every session of the batch exactly once, in the
/// order of the batch, and nothing else.
pub proof fn law_every_session_finished_once(sessions: Seq<SessionToExpire>)
    ensures
        finished_ids(expiry_steps(sessions)) == sessions.map_values(|s: SessionToExpire| s.id),
    decreases sessions.len(),
{
    if sessions.len() > 0 {
        let earlier = sessions.drop_last();
        law_every_session_finished_once(earlier);
        let steps = expiry_steps(sessions);
        let done = synced_users(earlier);
        let last = sessions.last();
        let sync = match last.user_id {
            Some(u) => if done.contains(u) {
                Seq::empty()
            } else {
                seq![ExpiryStep::SyncDevices { user_id: u, delay_seconds: sync_delay(done.len() as int) as i64 }]
            },
            None => Seq::empty(),
        };
        let fin = seq![ExpiryStep::Finish { session_id: last.id }];
        assert(steps == expiry_steps(earlier) + sync + fin);
        lemma_finished_ids_concat(expiry_steps(earlier) + sync, fin);
        lemma_finished_ids_concat(expiry_steps(earlier), sync);
        assert(finished_ids(sync) =~= Seq::<u128>::empty()) by {
            if sync.len() == 1 {
                assert(sync.drop_last() =~= Seq::<ExpiryStep>::empty());
            }
        }
        assert(fin.drop_last() =~= Seq::<ExpiryStep>::empty());
        assert(finished_ids(fin) =~= seq![last.id]);
        assert(sessions.map_values(|s: SessionToExpire| s.id) =~= earlier.map_values(
            |s: SessionToExpire| s.id,
        ).push(last.id));
    }
}

/// The device syncs of a batch go, in order, to the users of
/// [`synced_users`]; the k-th of them is scheduled `60 + 10 * k` seconds out.
pub proof fn law_sync_spacing(sessions: Seq<SessionToExpire>)
    requires
        sync_delays_in_range(sessions),
    ensures
        sync_requests(expiry_steps(sessions)).len() == synced_users(sessions).len(),
        forall|k: int|
            0 <= k < synced_users(sessions).len() ==> {
                &&& (#[trigger] sync_requests(expiry_steps(sessions))[k]).0 == synced_users(sessions)[k]
                &&& sync_requests(expiry_steps(sessions))[k].1 == sync_delay(k)
            },
    decreases sessions.len(),
{
    if sessions.len() > 0 {
        let earlier = sessions.drop_last();
        lemma_synced_users_grow(sessions, sessions.len() - 1);
        assert(sessions.take(sessions.len() - 1) =~= earlier);
        law_sync_spacing(earlier);
        let done = synced_users(earlier);
        let last = sessions.last();
        let sync = match last.user_id {
            Some(u) => if done.contains(u) {
                Seq::empty()
            } else {
                seq![ExpiryStep::SyncDevices { user_id: u, delay_seconds: sync_delay(done.len() as int) as i64 }]
            },
            None => Seq::empty(),
        };
        let fin = seq![ExpiryStep::Finish { session_id: last.id }];
        lemma_sync_requests_concat(expiry_steps(earlier) + sync, fin);
        lemma_sync_requests_concat(expiry_steps(earlier), sync);
        assert(fin.drop_last() =~= Seq::<ExpiryStep>::empty());
        assert(sync_requests(fin) =~= Seq::<(u128, i64)>::empty());
        if sync.len() == 1 {
            assert(sync.drop_last() =~= Seq::<ExpiryStep>::empty());
        } else {
            assert(sync =~= Seq::<ExpiryStep>::empty());
        }
    }
}

proof fn lemma_synced_users_at_most_sessions(sessions: Seq<SessionToExpire>)
    ensures
        synced_users(sessions).len() <= sessions.len(),
    decreases sessions.len(),
{
    if sessions.len() > 0 {
        lemma_synced_users_at_most_sessions(sessions.drop_last());
    }
}

/// A batch of `n` sessions has all its device syncs scheduled within
/// `60 + 10 * (n - 1)` seconds, however its sessions are spread over users.
pub proof fn law_sync_delays_bounded_by_batch_size(sessions: Seq<SessionToExpire>)
    requires
        sync_delays_in_range(sessions),
    ensures
        forall|k: int|
            0 <= k < sync_requests(expiry_steps(sessions)).len() ==> (#[trigger] sync_requests(
                expiry_steps(sessions),
            )[k]).1 <= sync_delay(sessions.len() - 1),
{
    law_sync_spacing(sessions);
    lemma_synced_users_at_most_sessions(sessions);
}

/// Each user gets at most one device sync per batch, and exactly the users of
/// the batch's sessions get one.
pub proof fn law_one_sync_per_user(sessions: Seq<SessionToExpire>)
    ensures
        synced_users(sessions).no_duplicates(),
        forall|u: u128|
            synced_users(sessions).contains(u) <==> exists|i: int|
                0 <= i < sessions.len() && #[trigger] sessions[i].user_id == Some(u),
    decreases sessions.len(),
{
    if sessions.len() > 0 {
        let earlier = sessions.drop_last();
        law_one_sync_per_user(earlier);
        assert forall|u: u128|
            synced_users(sessions).contains(u) <==> exists|i: int|
                0 <= i < sessions.len() && #[trigger] sessions[i].user_id == Some(u) by {
            if synced_users(sessions).contains(u) && sessions.last().user_id != Some(u) {
                let i = choose|i: int| 0 <= i < earlier.len() && #[trigger] earlier[i].user_id == Some(u);
                assert(sessions[i] == earlier[i]);
            }
            if exists|i: int| 0 <= i < sessions.len() && #[trigger] sessions[i].user_id == Some(u) {
                let i = choose|i: int| 0 <= i < sessions.len() && #[trigger] sessions[i].user_id == Some(u);
                if i < sessions.len() - 1 {
                    assert(earlier[i] == sessions[i]);
                }
            }
        }
    }
}

/// The steps that expire `sessions`, in order: see [`expiry_steps`].
pub fn plan_session_expiry(sessions: &Vec<SessionToExpire>) -> (steps: Vec<ExpiryStep>)
    requires
        sync_delays_in_range(sessions@),
    ensures
        steps@ == expiry_steps(sessions@),
{
    let mut steps: Vec<ExpiryStep> = Vec::new();
    let mut synced: HashSet<u128> = HashSet::new();
    let mut delay: i64 = minutes_in_seconds(1);
    let spacing: i64 = whole_seconds(10);
    let mut i: usize = 0;
    while i < sessions.len()
        invariant
            0 <= i <= sessions.len(),
            sync_delays_in_range(sessions@),
            spacing == sync_spacing(),
            steps@ == expiry_steps(sessions@.take(i as int)),
            forall|u: u128| synced@.contains(u) <==> synced_users(sessions@.take(i as int)).contains(u),
            delay == sync_delay(synced_users(sessions@.take(i as int)).len() as int),
        decreases sessions.len() - i,
    {
        let ghost before = sessions@.take(i as int);
        let ghost after = sessions@.take(i + 1);
        assert(after.drop_last() =~= before);
        assert(after.last() == sessions@[i as int]);
        proof {
            lemma_synced_users_grow(sessions@, i + 1);
        }
        let session = sessions[i];
        match session.user_id {
            Some(u) => {
                if synced.insert(u) {
                    steps.push(ExpiryStep::SyncDevices { user_id: u, delay_seconds: delay });
                    delay = delay + spacing;
                }
            },
            None => {},
        }
        steps.push(ExpiryStep::Finish { session_id: session.id });
        i = i + 1;
    }
    assert(sessions@.take(sessions.len() as int) =~= sessions@);
    steps
}

/// Where the next batch starts: after the last session of this one, when the
/// listing says more sessions follow and this batch has any; otherwise there
/// is no next batch.
pub fn next_cursor(has_next_page: bool, ids: &Vec<u128>) -> (cursor: Option<u128>)
    ensures
        cursor == if has_next_page && ids@.len() > 0 {
            Some(ids@.last())
        } else {
            None
        },
{
    if has_next_page && ids.len() > 0 {
        Some(ids[ids.len() - 1])
    } else {
        None
    }
}

} // verus!
