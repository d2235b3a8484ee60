use vstd::prelude::*;

verus! {

/// A successful start request.
#[derive(Debug, PartialEq, Eq)]
pub enum StartOutcome {
    /// A live process was already held; nothing was spawned.
    AlreadyRunning,
    /// A process was spawned with the named executable and is now held.
    Started(String),
}

/// A failed start request.
#[derive(Debug, PartialEq, Eq)]
pub enum StartError {
    /// No candidate executable could be spawned; all those tried, in order.
    NoUsableExecutable(Vec<String>),
}

/// The characters of each name.
pub open spec fn names_view(names: Seq<String>) -> Seq<Seq<char>> {
    names.map_values(|s: String| s@)
}

/// Progress through the candidates after one more spawn attempt: `failed`
/// candidates have failed so far, and `started` tells whether the one after
/// them succeeded. Once a spawn succeeds, or every candidate has failed,
/// nothing more changes.
pub open spec fn launch_step(len: nat, failed: nat, started: bool, spawned: bool) -> (nat, bool) {
    if started || failed >= len {
        (failed, started)
    } else if spawned {
        (failed, true)
    } else {
        (failed + 1, false)
    }
}

/// Progress after feeding the outcomes of successive spawn attempts, in
/// order, to a fresh launch over `len` candidates.
pub open spec fn launch_run(len: nat, outcomes: Seq<bool>) -> (nat, bool)
    decreases outcomes.len(),
{
    if outcomes.len() == 0 {
        (0, false)
    } else {
        let prev = launch_run(len, outcomes.drop_last());
        launch_step(len, prev.0, prev.1, outcomes.last())
    }
}

/// The verdict of a launch over `candidates` with the given progress: the
/// candidate that was spawned, or every candidate that was tried.
pub open spec fn launch_verdict(candidates: Seq<String>, failed: nat, started: bool) -> Result<Seq<char>, Seq<Seq<char>>> {
    if started {
        Ok(candidates[failed as int]@)
    } else {
        Err(names_view(candidates.subrange(0, failed as int)))
    }
}

/// Whether `r` is the start reply that carries verdict `v`.
pub open spec fn carries(r: Result<StartOutcome, StartError>, v: Result<Seq<char>, Seq<Seq<char>>>) -> bool {
    match (r, v) {
        (Ok(StartOutcome::Started(name)), Ok(n)) => name@ == n,
        (Err(StartError::NoUsableExecutable(tried)), Err(t)) => names_view(tried@) == t,
        _ => false,
    }
}

/// Spawning with executable-name fallback: the candidates are tried in
/// order until one spawns. The host spawns; the launch decides what to try
/// next and keeps the handle of the process that was spawned.
pub struct Launch<H> {
    candidates: Vec<String>,
    failed: usize,
    handle: Option<H>,
}

impl<H> Launch<H> {
    /// The candidate executable names, in order of preference.
    pub closed spec fn candidates(&self) -> Seq<String> {
        self.candidates@
    }

    /// How many candidates have failed to spawn so far.
    pub closed spec fn failed(&self) -> nat {
        self.failed as nat
    }

    /// The handle of the spawned process, once one was spawned.
    pub closed spec fn spawned(&self) -> Option<H> {
        self.handle
    }

    pub closed spec fn wf(&self) -> bool {
        &&& self.failed <= self.candidates@.len()
        &&& self.handle is Some ==> self.failed < self.candidates@.len()
    }

    /// What the launch ends in, from what it has seen so far.
    pub open spec fn verdict_of(&self) -> Result<Seq<char>, Seq<Seq<char>>> {
        launch_verdict(self.candidates(), self.failed(), self.spawned() is Some)
    }

    /// A launch over `candidates` that has tried none of them.
    pub fn new(candidates: Vec<String>) -> (l: Self)
        ensures
            l.wf(),
            l.candidates() == candidates@,
            l.failed() == 0,
            l.spawned() is None,
    {
        Launch { candidates, failed: 0, handle: None }
    }

    /// The candidate to spawn next: the first that has not failed, until a
    /// process was spawned or every candidate has failed.
    pub fn pending(&self) -> (r: Option<String>)
        requires
            self.wf(),
        ensures
            self.spawned() is None && self.failed() < self.candidates().len() ==> r == Some(
                self.candidates()[self.failed() as int],
            ),
            self.spawned() is Some || self.failed() >= self.candidates().len() ==> r is None,
    {
        if self.handle.is_some() || self.failed >= self.candidates.len() {
            None
        } else {
            Some(self.candidates[self.failed].clone())
        }
    }

    /// Records the outcome of spawning the pending candidate: the handle of
    /// the spawned process, or `None` where the spawn failed. Once a process
    /// was spawned or every candidate has failed, an outcome changes nothing
    /// (a handle handed in then is dropped).
    pub fn record(&mut self, outcome: Option<H>)
        requires
            old(self).wf(),
        ensures
            final(self).wf(),
            final(self).candidates() == old(self).candidates(),
            (final(self).failed(), final(self).spawned() is Some) == launch_step(
                old(self).candidates().len(),
                old(self).failed(),
                old(self).spawned() is Some,
                outcome is Some,
            ),
            old(self).spawned() is None && old(self).failed() < old(self).candidates().len()
                && outcome is Some ==> final(self).spawned() == outcome,
            old(self).spawned() is Some ==> final(self).spawned() == old(self).spawned(),
    {
        if self.handle.is_some() || self.failed >= self.candidates.len() {
            return;
        }
        match outcome {
            Some(h) => {
                self.handle = Some(h);
            },
            None => {
                self.failed = self.failed + 1;
            },
        }
    }

    /// The reply to the start request this launch served: the candidate
    /// that was spawned, or every candidate that was tried.
    pub fn finish(&self) -> (r: Result<StartOutcome, StartError>)
        requires
            self.wf(),
        ensures
            carries(r, self.verdict_of()),
    {
        if self.handle.is_some() {
            return Ok(StartOutcome::Started(self.candidates[self.failed].clone()));
        }
        let mut tried: Vec<String> = Vec::new();
        let mut i: usize = 0;
        while i < self.failed
            invariant
                self.wf(),
                i <= self.failed,
                tried@ == self.candidates@.subrange(0, i as int),
            decreases self.failed - i,
        {
            tried.push(self.candidates[i].clone());
            i = i + 1;
            assert(tried@ =~= self.candidates@.subrange(0, i as int));
        }
        Err(StartError::NoUsableExecutable(tried))
    }

    /// The handle of the spawned process, if one was spawned.
    pub fn into_handle(self) -> (r: Option<H>)
        ensures
            r == self.spawned(),
    {
        self.handle
    }
}


/// The executable names tried for the backend, in order of preference.
pub open spec fn backend_candidate_names() -> Seq<Seq<char>> {
    seq!["python"@, "python3"@, "py"@]
}

/// The arguments the backend is started with.
pub open spec fn backend_arg_list() -> Seq<Seq<char>> {
    seq!["main.py"@]
}

/// The executable names tried for the backend, in order of preference.
pub fn backend_candidates() -> (r: Vec<String>)
    ensures
        names_view(r@) == backend_candidate_names(),
{
    let mut r: Vec<String> = Vec::new();
    r.push(String::from_str("python"));
    r.push(String::from_str("python3"));
    r.push(String::from_str("py"));
    assert(names_view(r@) =~= backend_candidate_names());
    r
}

/// The arguments the backend is started with.
pub fn backend_args() -> (r: Vec<String>)
    ensures
        names_view(r@) == backend_arg_list(),
{
    let mut r: Vec<String> = Vec::new();
    r.push(String::from_str("main.py"));
    assert(names_view(r@) =~= backend_arg_list());
    r
}

} // verus!
