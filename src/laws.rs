use vstd::prelude::*;

use crate::launch::{launch_run, launch_verdict, names_view};
use crate::supervisor::{
    after_check, after_launch, finds_live, reports, stop_reply_spec, Poll, Status, StopOutcome,
};

verus! {

/// `n` failed spawn attempts in a row.
pub open spec fn failures(n: nat) -> Seq<bool> {
    Seq::new(n, |i: int| false)
}

/// Starting twice while the first process stays alive: once a start has
/// left a handle held, a second start whose poll finds that process running
/// spawns nothing and keeps exactly that handle.
pub proof fn lemma_start_is_idempotent<H>(held: Option<H>, observed: Option<Poll>, spawned: Option<H>)
    requires
        after_launch(after_check(held, observed), spawned) is Some,
    ensures
        ({
            let first = after_launch(after_check(held, observed), spawned);
            &&& finds_live(first is Some, Some(Poll::Running))
            &&& after_check(first, Some(Poll::Running)) == first
        }),
{
}

/// A held process that has exited is replaced: the start request drops it,
/// the newly spawned handle takes its place, and a status request that
/// polls the new process reports it running.
pub proof fn lemma_exited_is_replaced<H>(old_handle: H, detail: String, new_handle: H)
    ensures
        !finds_live(true, Some(Poll::Exited(detail))),
        after_check(Some(old_handle), Some(Poll::Exited(detail))) is None,
        after_launch(after_check(Some(old_handle), Some(Poll::Exited(detail))), Some(new_handle))
            == Some(new_handle),
        forall|r: Status| reports(true, Some(Poll::Running), r) <==> r is Running,
{
}

/// A poll that fails counts as an exit: the start request drops the handle.
pub proof fn lemma_failed_poll_is_replaced<H>(handle: H, detail: String)
    ensures
        after_check(Some(handle), Some(Poll::Failed(detail))) is None,
{
}

/// Stopping when nothing is held succeeds, reporting that nothing ran.
pub proof fn lemma_stop_when_idle()
    ensures
        stop_reply_spec(None) == Ok::<StopOutcome, crate::supervisor::StopError>(
            StopOutcome::NotRunning,
        ),
{
}

/// After any stop request nothing is held, so every later status request
/// reports that nothing was started, whatever the signal's outcome was.
pub proof fn lemma_status_after_stop(observed: Option<Poll>)
    ensures
        forall|r: Status| reports(false, observed, r) <==> r is NotStarted,
{
}

/// Polling a held process that has exited, any number of times, reports the
/// exit each time and leaves what a later start request decides unchanged:
/// that request still replaces the process.
pub proof fn lemma_status_is_observational<H>(handle: H, detail: String)
    ensures
        forall|r: Status| reports(true, Some(Poll::Exited(detail)), r) <==> r == Status::Exited(detail),
        !finds_live(Some(handle) is Some, Some(Poll::Exited(detail))),
        after_check(Some(handle), Some(Poll::Exited(detail))) is None,
{
}

/// Failures only move the launch past the candidates that failed.
pub proof fn lemma_failures_run(len: nat, k: nat)
    requires
        k <= len,
    ensures
        launch_run(len, failures(k)) == (k, false),
    decreases k,
{
    if k > 0 {
        assert(failures(k).drop_last() =~= failures((k - 1) as nat));
        lemma_failures_run(len, (k - 1) as nat);
    }
}

/// Candidates are tried in order: where the first `n` fail to spawn and the
/// next one spawns, the launch reports that one; where all fail, it reports
/// every candidate as tried.
pub proof fn lemma_fallback_order(candidates: Seq<String>, n: nat)
    ensures
        n < candidates.len() ==> launch_run(candidates.len(), failures(n).push(true)) == (n, true)
            && launch_verdict(candidates, n, true) == Ok::<Seq<char>, Seq<Seq<char>>>(
            candidates[n as int]@,
        ),
        launch_run(candidates.len(), failures(candidates.len())) == (candidates.len(), false),
        launch_verdict(candidates, candidates.len(), false) == Err::<Seq<char>, Seq<Seq<char>>>(
            names_view(candidates),
        ),
{
    if n < candidates.len() {
        lemma_failures_run(candidates.len(), n);
        assert(failures(n).push(true).drop_last() =~= failures(n));
    }
    lemma_failures_run(candidates.len(), candidates.len());
    assert(candidates.subrange(0, candidates.len() as int) =~= candidates);
}

} // verus!
