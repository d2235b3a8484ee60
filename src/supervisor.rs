use vstd::prelude::*;

use crate::launch::{carries, Launch, StartError, StartOutcome};

verus! {

/// What polling the held process for its exit status found.
#[derive(Debug, PartialEq, Eq)]
pub enum Poll {
    /// The process has not exited yet.
    Running,
    /// The process has exited; the detail describes its exit status.
    Exited(String),
    /// The poll itself failed; the detail describes the failure.
    Failed(String),
}

/// What a status request reports.
#[derive(Debug, PartialEq, Eq)]
pub enum Status {
    NotStarted,
    Running,
    Exited(String),
    PollError(String),
}

/// The first decision of a start request, taken before any spawn.
#[derive(Debug, PartialEq, Eq)]
pub enum StartCheck {
    /// A live process is held: nothing is to be spawned.
    AlreadyRunning,
    /// Nothing live is held: the candidates are to be tried.
    Launch,
}

/// A successful stop request.
#[derive(Debug, PartialEq, Eq)]
pub enum StopOutcome {
    /// A held process was taken and signalled.
    Stopped,
    /// Nothing was held.
    NotRunning,
}

/// A failed stop request: the termination signal could not be delivered.
#[derive(Debug, PartialEq, Eq)]
pub enum StopError {
    TerminationFailed(String),
}

/// Whether `r` is the status reported for what is held and what polling
/// it observed. A held process that was not polled reports a poll error
/// with no detail.
pub open spec fn reports(tracking: bool, observed: Option<Poll>, r: Status) -> bool {
    if !tracking {
        r is NotStarted
    } else {
        match observed {
            Some(Poll::Running) => r is Running,
            Some(Poll::Exited(d)) => r == Status::Exited(d),
            Some(Poll::Failed(d)) => r == Status::PollError(d),
            None => r is PollError && r->PollError_0@.len() == 0,
        }
    }
}

/// Whether a start request finds a live process: something is held and
/// polling it found it running. An exit or a failed poll both count as gone.
pub open spec fn finds_live(tracking: bool, observed: Option<Poll>) -> bool {
    tracking && observed matches Some(Poll::Running)
}

/// What a start request's first step leaves held: a live process stays,
/// anything else is dropped.
pub open spec fn after_check<H>(held: Option<H>, observed: Option<Poll>) -> Option<H> {
    if finds_live(held is Some, observed) {
        held
    } else {
        None
    }
}

/// What a start request's last step leaves held: the newly spawned handle
/// where the launch spawned one, else what was held before.
pub open spec fn after_launch<H>(held: Option<H>, spawned: Option<H>) -> Option<H> {
    if spawned is Some {
        spawned
    } else {
        held
    }
}

/// The reply to a stop request, given the outcome of signalling the process
/// that was taken, or `None` where nothing was held.
pub open spec fn stop_reply_spec(signalled: Option<Result<(), String>>) -> Result<StopOutcome, StopError> {
    match signalled {
        None => Ok(StopOutcome::NotRunning),
        Some(Ok(())) => Ok(StopOutcome::Stopped),
        Some(Err(e)) => Err(StopError::TerminationFailed(e)),
    }
}

/// Owner of at most one held process handle.
///
/// The handle type is left to the host; the supervisor never inspects it.
/// A host shares one supervisor between its command handlers behind a lock.
pub struct Supervisor<H> {
    slot: Option<H>,
}

impl<H> Supervisor<H> {
    /// The handle currently held, if any.
    pub closed spec fn held(&self) -> Option<H> {
        self.slot
    }

    /// A supervisor that tracks nothing.
    pub fn new() -> (s: Self)
        ensures
            s.held() is None,
    {
        Supervisor { slot: None }
    }

    pub fn is_tracking(&self) -> (r: bool)
        ensures
            r == self.held() is Some,
    {
        self.slot.is_some()
    }

    /// Access to the held handle, for polling it.
    pub fn handle_mut(&mut self) -> (r: Option<&mut H>)
        ensures
            r is Some <==> old(self).held() is Some,
            old(self).held() is None ==> final(self).held() is None,
            r is Some ==> *r->0 == old(self).held()->0,
            r is Some ==> final(self).held() == Some(*final(r->0)),
    {
        match &mut self.slot {
            Some(h) => Some(h),
            None => None,
        }
    }

    /// Reports on the held process without changing what is held.
    /// `observed` is the outcome of polling the held handle.
    pub fn status(&self, observed: Option<Poll>) -> (r: Status)
        ensures
            reports(self.held() is Some, observed, r),
    {
        if self.slot.is_none() {
            return Status::NotStarted;
        }
        match observed {
            Some(Poll::Running) => Status::Running,
            Some(Poll::Exited(d)) => Status::Exited(d),
            Some(Poll::Failed(d)) => Status::PollError(d),
            None => Status::PollError(String::new()),
        }
    }

    /// First step of a start request. `observed` is the outcome of polling
    /// the held handle. A live process is kept; a handle that exited, or
    /// whose poll failed, is dropped so that a replacement can be spawned.
    pub fn start_check(&mut self, observed: Option<Poll>) -> (r: StartCheck)
        ensures
            r is AlreadyRunning <==> finds_live(old(self).held() is Some, observed),
            final(self).held() == after_check(old(self).held(), observed),
    {
        if self.slot.is_some() {
            if let Some(Poll::Running) = observed {
                return StartCheck::AlreadyRunning;
            }
        }
        self.slot = None;
        StartCheck::Launch
    }

    /// Last step of a start request: a launch that spawned a process hands
    /// its handle over, replacing whatever was held; one that did not
    /// leaves the supervisor as it was.
    pub fn complete_start(&mut self, launch: Launch<H>) -> (r: Result<StartOutcome, StartError>)
        requires
            launch.wf(),
        ensures
            carries(r, launch.verdict_of()),
            final(self).held() == after_launch(old(self).held(), launch.spawned()),
    {
        let verdict = launch.finish();
        match launch.into_handle() {
            Some(h) => {
                self.slot = Some(h);
            },
            None => {},
        }
        verdict
    }

    /// First step of a stop request: the held handle is taken out, so
    /// that nothing is held afterwards whatever signalling it does.
    pub fn stop(&mut self) -> (r: Option<H>)
        ensures
            r == old(self).held(),
            final(self).held() is None,
    {
        self.slot.take()
    }
}

/// Last step of a stop request: the reply for the outcome of signalling the
/// handle that `Supervisor::stop` took, or for `None` where it took nothing.
pub fn stop_reply(signalled: Option<Result<(), String>>) -> (r: Result<StopOutcome, StopError>)
    ensures
        r == stop_reply_spec(signalled),
{
    match signalled {
        None => Ok(StopOutcome::NotRunning),
        Some(Ok(())) => Ok(StopOutcome::Stopped),
        Some(Err(e)) => Err(StopError::TerminationFailed(e)),
    }
}

} // verus!
