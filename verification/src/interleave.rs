//! Several uploads that share one client and one bucket.
//!
//! Uploads through one client and one bucket take their steps in any order:
//! between two steps of one upload, others may have stored a session or
//! replaced the lease. This module states what holds of every such order.
//! Since a step is decided on the shared values as they are at that moment,
//! and is never split, an order of steps is all there is to a concurrent run.

use crate::account::AccountView;
use crate::bucket::{is_fresh, lease_of_response, BucketView, UploadUrlInnerView};
use crate::client::is_success_status;
use crate::upload::{next, UploadActionView, UploadEvent, UploadState, UploadView, World};
use vstd::prelude::*;

verus! {

/// The uploads, and what they share.
pub struct Shared {
    pub account: AccountView,
    pub bucket: BucketView,
    pub uploads: Seq<UploadView>,
}

/// One move: the upload `who` takes in `event`.
pub struct Move {
    pub who: int,
    pub event: UploadEvent,
}

/// What one upload sees of the shared values.
pub open spec fn world_of(s: Shared, who: int) -> World {
    World { account: s.account, bucket: s.bucket, upload: s.uploads[who] }
}

/// The effect of one move: the values after it, and the action that the
/// upload is told. A move of an upload that is not there, or with an event
/// that does not answer what the upload is waiting for, has no effect.
pub open spec fn step_shared(s: Shared, m: Move) -> (Shared, Option<UploadActionView>) {
    if 0 <= m.who < s.uploads.len() {
        match next(world_of(s, m.who), m.event) {
            Some((after, todo)) => (
                Shared {
                    account: after.account,
                    bucket: after.bucket,
                    uploads: s.uploads.update(m.who, after.upload),
                },
                Some(todo),
            ),
            None => (s, None),
        }
    } else {
        (s, None)
    }
}

/// The values after a sequence of moves.
pub open spec fn run(s: Shared, moves: Seq<Move>) -> Shared
    decreases moves.len(),
{
    if moves.len() == 0 {
        s
    } else {
        step_shared(run(s, moves.drop_last()), moves.last()).0
    }
}

/// The action that move number `k` of a sequence causes.
pub open spec fn action_at(s: Shared, moves: Seq<Move>, k: int) -> Option<UploadActionView> {
    step_shared(run(s, moves.take(k)), moves[k]).1
}

/// The upload that makes move number `k`, as it is after the move.
pub open spec fn upload_after(s: Shared, moves: Seq<Move>, k: int) -> UploadView {
    run(s, moves.take(k + 1)).uploads[moves[k].who]
}

/// Whether a move asks the service for an upload endpoint.
pub open spec fn is_fetch(s: Shared, m: Move) -> bool {
    step_shared(s, m).1 matches Some(UploadActionView::GetUploadUrl(_))
}

/// The number of requests for an upload endpoint that a sequence of moves makes.
pub open spec fn fetches(s: Shared, moves: Seq<Move>) -> nat
    decreases moves.len(),
{
    if moves.len() == 0 {
        0
    } else {
        fetches(s, moves.drop_last()) + if is_fetch(run(s, moves.drop_last()), moves.last()) {
            1nat
        } else {
            0nat
        }
    }
}

/// The lease that a move stores, if it stores one: the move of an upload that
/// waits for an upload endpoint, with the endpoint that arrived.
pub open spec fn stored_by(s: Shared, m: Move) -> Option<UploadUrlInnerView> {
    if 0 <= m.who < s.uploads.len() && s.uploads[m.who].state == UploadState::Leasing {
        match m.event {
            UploadEvent::Leased(Ok(res)) => Some(
                lease_of_response(res, s.uploads[m.who].started_at),
            ),
            _ => None,
        }
    } else {
        None
    }
}

/// The leases that a sequence of moves stores, in the order of the moves.
pub open spec fn stored(s: Shared, moves: Seq<Move>) -> Seq<UploadUrlInnerView>
    decreases moves.len(),
{
    if moves.len() == 0 {
        Seq::empty()
    } else {
        match stored_by(run(s, moves.drop_last()), moves.last()) {
            Some(lease) => stored(s, moves.drop_last()).push(lease),
            None => stored(s, moves.drop_last()),
        }
    }
}

/// Whether an upload in this state may still ask for an upload endpoint.
pub open spec fn may_fetch(state: UploadState) -> bool {
    state == UploadState::Idle || state == UploadState::Authorizing
}

/// The number of uploads that may still ask for an upload endpoint.
pub open spec fn waiting(uploads: Seq<UploadView>) -> nat
    decreases uploads.len(),
{
    if uploads.len() == 0 {
        0
    } else {
        waiting(uploads.drop_last()) + if may_fetch(uploads.last().state) {
            1nat
        } else {
            0nat
        }
    }
}

/// The number of uploads that wait for an upload endpoint.
pub open spec fn leasing(uploads: Seq<UploadView>) -> nat
    decreases uploads.len(),
{
    if uploads.len() == 0 {
        0
    } else {
        leasing(uploads.drop_last()) + if uploads.last().state == UploadState::Leasing {
            1nat
        } else {
            0nat
        }
    }
}

/// Whether an event reports a success: a start, a reply that grants a
/// session, an upload endpoint, or a stored file.
pub open spec fn is_success(event: UploadEvent) -> bool {
    match event {
        UploadEvent::Start { .. } => true,
        UploadEvent::Authorized(Ok(reply)) => is_success_status(reply.status),
        UploadEvent::Leased(Ok(_)) => true,
        UploadEvent::Uploaded(Ok(_)) => true,
        _ => false,
    }
}

proof fn lemma_waiting_update(uploads: Seq<UploadView>, i: int, u: UploadView)
    requires
        0 <= i < uploads.len(),
    ensures
        waiting(uploads.update(i, u)) + (if may_fetch(uploads[i].state) {
            1nat
        } else {
            0nat
        }) == waiting(uploads) + (if may_fetch(u.state) {
            1nat
        } else {
            0nat
        }),
        waiting(uploads) <= uploads.len(),
    decreases uploads.len(),
{
    lemma_waiting_bound(uploads);
    if i == uploads.len() - 1 {
        assert(uploads.update(i, u).drop_last() =~= uploads.drop_last());
    } else {
        assert(uploads.update(i, u).drop_last() =~= uploads.drop_last().update(i, u));
        lemma_waiting_update(uploads.drop_last(), i, u);
    }
}

proof fn lemma_waiting_bound(uploads: Seq<UploadView>)
    ensures
        waiting(uploads) <= uploads.len(),
    decreases uploads.len(),
{
    if uploads.len() > 0 {
        lemma_waiting_bound(uploads.drop_last());
    }
}

proof fn lemma_leasing_update(uploads: Seq<UploadView>, i: int, u: UploadView)
    requires
        0 <= i < uploads.len(),
    ensures
        leasing(uploads.update(i, u)) + (if uploads[i].state == UploadState::Leasing {
            1nat
        } else {
            0nat
        }) == leasing(uploads) + (if u.state == UploadState::Leasing {
            1nat
        } else {
            0nat
        }),
    decreases uploads.len(),
{
    if i == uploads.len() - 1 {
        assert(uploads.update(i, u).drop_last() =~= uploads.drop_last());
    } else {
        assert(uploads.update(i, u).drop_last() =~= uploads.drop_last().update(i, u));
        lemma_leasing_update(uploads.drop_last(), i, u);
    }
}

/// What one move does to the counts and to the lease.
proof fn lemma_move(s: Shared, m: Move)
    ensures
        ({
            let after = step_shared(s, m).0;
            let fetch: nat = if is_fetch(s, m) {
                1
            } else {
                0
            };
            let kept: nat = if stored_by(s, m) is Some {
                1
            } else {
                0
            };
            &&& after.uploads.len() == s.uploads.len()
            &&& fetch + waiting(after.uploads) <= waiting(s.uploads)
            &&& kept + leasing(after.uploads) <= fetch + leasing(s.uploads)
            &&& after.bucket.upload_url == match stored_by(s, m) {
                Some(lease) => Some(lease),
                None => s.bucket.upload_url,
            }
        }),
{
    if 0 <= m.who < s.uploads.len() {
        match next(world_of(s, m.who), m.event) {
            Some((after, todo)) => {
                lemma_waiting_update(s.uploads, m.who, after.upload);
                lemma_leasing_update(s.uploads, m.who, after.upload);
            },
            None => {},
        }
    }
}

proof fn lemma_run(s: Shared, moves: Seq<Move>)
    ensures
        run(s, moves).uploads.len() == s.uploads.len(),
        fetches(s, moves) + waiting(run(s, moves).uploads) <= waiting(s.uploads),
        stored(s, moves).len() + leasing(run(s, moves).uploads) <= fetches(s, moves) + leasing(
            s.uploads,
        ),
        run(s, moves).bucket.upload_url == if stored(s, moves).len() == 0 {
            s.bucket.upload_url
        } else {
            Some(stored(s, moves).last())
        },
    decreases moves.len(),
{
    if moves.len() > 0 {
        lemma_run(s, moves.drop_last());
        lemma_move(run(s, moves.drop_last()), moves.last());
    }
}

proof fn lemma_counts_grow(s: Shared, moves: Seq<Move>, k: int)
    requires
        0 <= k <= moves.len(),
    ensures
        fetches(s, moves.take(k)) <= fetches(s, moves),
        stored(s, moves.take(k)).len() <= stored(s, moves).len(),
    decreases moves.len() - k,
{
    if k < moves.len() {
        lemma_counts_grow(s, moves.drop_last(), k);
        assert(moves.drop_last().take(k) =~= moves.take(k));
    } else {
        assert(moves.take(k) =~= moves);
    }
}

/// However the steps of the uploads fall, no more upload endpoints are asked
/// for than there are uploads: an upload asks at most once.
pub proof fn lemma_at_most_one_fetch_per_upload(s: Shared, moves: Seq<Move>)
    ensures
        fetches(s, moves) <= s.uploads.len(),
{
    lemma_run(s, moves);
    lemma_waiting_bound(s.uploads);
}

/// The last lease stored wins: after any sequence of moves the bucket holds
/// the lease that was stored last, and what it held before if none was
/// stored. Every lease stored answers a request for one, provided that no
/// upload was waiting for an upload endpoint to begin with.
pub proof fn lemma_last_stored_lease_wins(s: Shared, moves: Seq<Move>)
    ensures
        run(s, moves).bucket.upload_url == if stored(s, moves).len() == 0 {
            s.bucket.upload_url
        } else {
            Some(stored(s, moves).last())
        },
        leasing(s.uploads) == 0 ==> stored(s, moves).len() <= fetches(s, moves),
{
    lemma_run(s, moves);
}

/// Whenever a move sends content, the bucket holds at that moment a lease
/// that is usable at the time at which the sending upload began, and the
/// content goes to the address of that lease with its token. This holds of
/// every upload, whatever the others did in between. If the bucket held no
/// lease to begin with and no upload was waiting for one, then the lease is
/// one that arrived in answer to a request: at least one request was made and
/// at most one per upload, and in the end the bucket holds the lease that
/// arrived last.
pub proof fn lemma_every_send_uses_a_usable_lease(s: Shared, moves: Seq<Move>, k: int)
    requires
        0 <= k < moves.len(),
        action_at(s, moves, k) matches Some(UploadActionView::Upload(_)),
    ensures
        ({
            let req = action_at(s, moves, k)->Some_0->Upload_0;
            let held = run(s, moves.take(k + 1)).bucket.upload_url;
            &&& held is Some
            &&& is_fresh(held->Some_0, upload_after(s, moves, k).started_at)
            &&& req.url == held->Some_0.url
            &&& req.authorization == held->Some_0.token
            &&& run(s, moves).bucket.upload_url is Some
            &&& s.bucket.upload_url is None && leasing(s.uploads) == 0 ==> {
                &&& 1 <= fetches(s, moves) <= s.uploads.len()
                &&& stored(s, moves.take(k + 1)).len() > 0
                &&& held == Some(stored(s, moves.take(k + 1)).last())
                &&& 1 <= stored(s, moves).len() <= fetches(s, moves)
                &&& run(s, moves).bucket.upload_url == Some(stored(s, moves).last())
            }
        }),
{
    let before = run(s, moves.take(k));
    let m = moves[k];
    assert(moves.take(k + 1).drop_last() =~= moves.take(k));
    assert(moves.take(k + 1).last() == m);
    assert(run(s, moves.take(k + 1)) == step_shared(before, m).0);
    lemma_run(s, moves.take(k + 1));
    lemma_run(s, moves);
    lemma_counts_grow(s, moves, k + 1);
    lemma_waiting_bound(s.uploads);
}

/// A success never ends an upload badly: when a move of a run takes in a
/// success and ends its upload, the upload ends with a file. And a success
/// that answers what an upload is waiting for always moves the upload on,
/// whatever the others have done to the shared values by then. So in a run
/// in which every exchange succeeds, every upload that gets its answers ends
/// with a file.
pub proof fn lemma_successes_end_well(s: Shared, moves: Seq<Move>, k: int)
    requires
        0 <= k < moves.len(),
        0 <= moves[k].who < s.uploads.len(),
        is_success(moves[k].event),
    ensures
        action_at(s, moves, k) matches Some(UploadActionView::Done(result)) ==> result is Ok,
        awaited(run(s, moves.take(k)).uploads[moves[k].who].state, moves[k].event) ==> {
            &&& action_at(s, moves, k) is Some
            &&& stage(upload_after(s, moves, k).state) > stage(
                run(s, moves.take(k)).uploads[moves[k].who].state,
            )
        },
{
    lemma_run(s, moves.take(k));
    assert(moves.take(k + 1).drop_last() =~= moves.take(k));
    assert(moves.take(k + 1).last() == moves[k]);
}

/// The number of moves of upload `who` in a sequence that had an effect.
pub open spec fn effective(s: Shared, moves: Seq<Move>, who: int) -> nat
    decreases moves.len(),
{
    if moves.len() == 0 {
        0
    } else {
        effective(s, moves.drop_last(), who) + if moves.last().who == who && step_shared(
            run(s, moves.drop_last()),
            moves.last(),
        ).1 is Some {
            1nat
        } else {
            0nat
        }
    }
}

/// An upload only moves forward, and only by its own moves: every move of
/// its own that has an effect takes it at least one stage further, and no
/// move of another upload touches it. There are four stages to go, so an
/// upload has ended after at most four moves with an effect.
pub proof fn lemma_uploads_only_advance(s: Shared, moves: Seq<Move>, who: int)
    requires
        0 <= who < s.uploads.len(),
    ensures
        stage(s.uploads[who].state) + effective(s, moves, who) <= stage(
            run(s, moves).uploads[who].state,
        ),
        effective(s, moves, who) <= 4,
        run(s, moves).uploads[who].state == s.uploads[who].state ==> run(s, moves).uploads[who]
            == s.uploads[who],
    decreases moves.len(),
{
    if moves.len() > 0 {
        lemma_uploads_only_advance(s, moves.drop_last(), who);
        lemma_run(s, moves.drop_last());
    }
}

/// Whether an event answers what an upload in the given state is waiting for.
pub open spec fn awaited(state: UploadState, event: UploadEvent) -> bool {
    match (state, event) {
        (UploadState::Idle, UploadEvent::Start { .. }) => true,
        (UploadState::Authorizing, UploadEvent::Authorized(_)) => true,
        (UploadState::Leasing, UploadEvent::Leased(_)) => true,
        (UploadState::Sending, UploadEvent::Uploaded(_)) => true,
        _ => false,
    }
}

/// How far an upload has come: from 0, not begun, to 4, ended.
pub open spec fn stage(state: UploadState) -> nat {
    match state {
        UploadState::Idle => 0,
        UploadState::Authorizing => 1,
        UploadState::Leasing => 2,
        UploadState::Sending => 3,
        UploadState::Finished => 4,
    }
}

} // verus!
