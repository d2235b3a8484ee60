use vstd::prelude::*;

use crate::launch::{names_view, StartError, StartOutcome};
use crate::supervisor::{Status, StopError, StopOutcome};

verus! {

/// The names joined with `sep` between each two of them.
pub open spec fn joined(names: Seq<Seq<char>>, sep: Seq<char>) -> Seq<char>
    decreases names.len(),
{
    if names.len() == 0 {
        Seq::empty()
    } else if names.len() == 1 {
        names[0]
    } else {
        joined(names.drop_last(), sep) + sep + names.last()
    }
}

pub open spec fn start_text(o: StartOutcome) -> Seq<char> {
    match o {
        StartOutcome::AlreadyRunning => "Python backend already running"@,
        StartOutcome::Started(exe) => "Python backend started with: "@ + exe@,
    }
}

pub open spec fn start_error_text(e: StartError) -> Seq<char> {
    match e {
        StartError::NoUsableExecutable(tried) => "Failed to start Python backend with any of: "@
            + joined(names_view(tried@), ", "@),
    }
}

pub open spec fn stop_text(o: StopOutcome) -> Seq<char> {
    match o {
        StopOutcome::Stopped => "Python backend stopped successfully"@,
        StopOutcome::NotRunning => "Python backend was not running"@,
    }
}

pub open spec fn stop_error_text(e: StopError) -> Seq<char> {
    match e {
        StopError::TerminationFailed(d) => "Failed to stop Python backend: "@ + d@,
    }
}

pub open spec fn status_text(s: Status) -> Seq<char> {
    match s {
        Status::NotStarted => "Not started"@,
        Status::Running => "Running"@,
        Status::Exited(d) => "Exited with status: "@ + d@,
        Status::PollError(d) => "Error checking status: "@ + d@,
    }
}

/// The names joined with `sep` between each two of them.
pub fn join_names(names: &Vec<String>, sep: &str) -> (r: String)
    ensures
        r@ == joined(names_view(names@), sep@),
{
    let mut out = String::new();
    let mut i: usize = 0;
    while i < names.len()
        invariant
            i <= names@.len(),
            out@ == joined(names_view(names@.subrange(0, i as int)), sep@),
        decreases names.len() - i,
    {
        let ghost before = names_view(names@.subrange(0, i as int));
        if i > 0 {
            out.append(sep);
        }
        out.append(names[i].as_str());
        i = i + 1;
        proof {
            let now = names_view(names@.subrange(0, i as int));
            assert(now.drop_last() =~= before);
            assert(now.last() == names@[i - 1]@);
            if i == 1 {
                assert(before.len() == 0);
                assert(out@ =~= now[0]);
            }
        }
    }
    assert(names@.subrange(0, names@.len() as int) =~= names@);
    out
}

/// The text that reports a successful start request.
pub fn start_message(o: &StartOutcome) -> (r: String)
    ensures
        r@ == start_text(*o),
{
    match o {
        StartOutcome::AlreadyRunning => String::from_str("Python backend already running"),
        StartOutcome::Started(exe) => String::from_str("Python backend started with: ").concat(
            exe.as_str(),
        ),
    }
}

/// The text that reports a failed start request; it names every candidate tried.
pub fn start_error_message(e: &StartError) -> (r: String)
    ensures
        r@ == start_error_text(*e),
{
    match e {
        StartError::NoUsableExecutable(tried) => {
            let names = join_names(tried, ", ");
            String::from_str("Failed to start Python backend with any of: ").concat(names.as_str())
        },
    }
}

/// The text that reports a successful stop request.
pub fn stop_message(o: &StopOutcome) -> (r: String)
    ensures
        r@ == stop_text(*o),
{
    match o {
        StopOutcome::Stopped => String::from_str("Python backend stopped successfully"),
        StopOutcome::NotRunning => String::from_str("Python backend was not running"),
    }
}

/// The text that reports a failed stop request.
pub fn stop_error_message(e: &StopError) -> (r: String)
    ensures
        r@ == stop_error_text(*e),
{
    match e {
        StopError::TerminationFailed(d) => String::from_str("Failed to stop Python backend: ").concat(
            d.as_str(),
        ),
    }
}

/// The text that reports a status.
pub fn status_message(s: &Status) -> (r: String)
    ensures
        r@ == status_text(*s),
{
    match s {
        Status::NotStarted => String::from_str("Not started"),
        Status::Running => String::from_str("Running"),
        Status::Exited(d) => String::from_str("Exited with status: ").concat(d.as_str()),
        Status::PollError(d) => String::from_str("Error checking status: ").concat(d.as_str()),
    }
}

} // verus!
