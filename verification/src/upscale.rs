use vstd::prelude::*;
use vstd::string::StringExecFns;

use crate::text::{push_str, trim, trimmed};

verus! {

/// The running upscaler process, if any (`P` is the process handle).
pub struct UpscaleState<P> {
    pub process: Option<P>,
}

/// What the monitor of an upscale does after a poll.
#[derive(Debug)]
pub enum MonitorStep {
    /// The process ended: report `upscale_finished` with this payload, and stop.
    Finished(String),
    /// The process is gone (it was cancelled): stop without reporting.
    Stop,
    /// The process still runs: wait, then poll again.
    Wait,
}

/// The model of a monitor step.
pub enum MonitorModel {
    Finished(Seq<char>),
    Stop,
    Wait,
}

impl View for MonitorStep {
    type V = MonitorModel;

    open spec fn view(&self) -> MonitorModel {
        match self {
            MonitorStep::Finished(s) => MonitorModel::Finished(s@),
            MonitorStep::Stop => MonitorModel::Stop,
            MonitorStep::Wait => MonitorModel::Wait,
        }
    }
}

/// A poll of the state: `running` tells whether a process is held, `exit` whether it has
/// exited, successfully or not. Gives whether a process is still held, and the step.
pub open spec fn poll_model(running: bool, exit: Option<bool>) -> (bool, MonitorModel) {
    if !running {
        (false, MonitorModel::Stop)
    } else {
        match exit {
            Some(success) => (false, MonitorModel::Finished(if success { "success"@ } else { "failed"@ })),
            None => (true, MonitorModel::Wait),
        }
    }
}

/// A cancellation: gives whether a process is still held, and the answer
/// (`Ok`: a process was stopped).
pub open spec fn cancel_model(running: bool) -> (bool, Result<(), Seq<char>>) {
    if running {
        (false, Ok(()))
    } else {
        (false, Err("No process running"@))
    }
}

impl<P> UpscaleState<P> {
    /// No upscale running.
    pub fn new() -> (s: Self)
        ensures
            s.process is None,
    {
        UpscaleState { process: None }
    }

    /// Holds `p` as the running process (a process held before is let go).
    pub fn install(&mut self, p: P)
        ensures
            final(self).process == Some(p),
    {
        self.process = Some(p);
    }

    /// Takes the running process out to be killed; an error when there is none.
    pub fn cancel(&mut self) -> (r: Result<P, String>)
        ensures
            final(self).process is None,
            cancel_model(old(self).process is Some).0 == final(self).process is Some,
            old(self).process matches Some(p) ==> (r matches Ok(q) && q == p),
            old(self).process is None ==> (r matches Err(e) && cancel_model(false).1 == Err::<
                (),
                Seq<char>,
            >(e@)),
    {
        match self.process.take() {
            Some(p) => Ok(p),
            None => Err(String::from_str("No process running")),
        }
    }

    /// One poll of the monitor: `exit` is what the held process answered when asked
    /// whether it has exited (`None`: still running, or no answer).
    pub fn poll(&mut self, exit: Option<bool>) -> (step: MonitorStep)
        ensures
            (final(self).process is Some, step@) == poll_model(old(self).process is Some, exit),
            final(self).process is Some ==> final(self).process == old(self).process,
    {
        if self.process.is_none() {
            return MonitorStep::Stop;
        }
        match exit {
            Some(success) => {
                self.process = None;
                MonitorStep::Finished(
                    if success {
                        String::from_str("success")
                    } else {
                        String::from_str("failed")
                    },
                )
            },
            None => MonitorStep::Wait,
        }
    }
}

/// Law: once an upscale is cancelled, whatever the answer, the monitor stops at its next
/// poll without reporting a result.
pub proof fn lemma_cancel_silences_monitor(running: bool, exit: Option<bool>)
    ensures
        poll_model(cancel_model(running).0, exit).1 is Stop,
{
}

/// Law: a finished upscale is reported once: the poll after the one that reported it stops,
/// and a cancellation then answers that no process runs.
pub proof fn lemma_finish_reported_once(running: bool, exit: Option<bool>, later: Option<bool>)
    requires
        poll_model(running, exit).1 is Finished,
    ensures
        poll_model(poll_model(running, exit).0, later).1 is Stop,
        cancel_model(poll_model(running, exit).0).1 is Err,
{
}

/// The interpreter that runs the upscaler: what `uv python find 3.12` printed, trimmed,
/// when it ran and succeeded; otherwise the default interpreter of the host.
pub fn python_program(uv_found: Option<String>, windows: bool) -> (out: String)
    ensures
        match uv_found {
            Some(s) => out@ == trim(s@),
            None => out@ == (if windows { "python"@ } else { "python3"@ }),
        },
{
    match uv_found {
        Some(s) => trimmed(s.as_str()),
        None => if windows {
            String::from_str("python")
        } else {
            String::from_str("python3")
        },
    }
}

/// The progress message for a line the upscaler wrote to its error output.
pub fn error_progress_line(line: &str) -> (out: String)
    ensures
        out@ == "ERROR: "@ + line@,
{
    let mut out = String::from_str("ERROR: ");
    push_str(&mut out, line);
    out
}

} // verus!
