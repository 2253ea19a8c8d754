//! The signal policy for the three terminal-driven job-control signals.
//!
//! The launcher ignores all three once at startup, so that it is never
//! stopped or blocked on terminal I/O while a child owns the terminal; a
//! freshly created child restores the default behaviour for itself, before
//! the handshake wait and before the target program runs, so the launched
//! program is stoppable like any normal terminal job.  Dispositions are
//! per-process: applying the child's policy in the child leaves the
//! launcher's own dispositions untouched.

use vstd::prelude::*;

verus! {

/// The three terminal-driven job-control signals.
#[derive(Clone, Copy, PartialEq, Eq, Structural, Debug)]
pub enum JobSignal {
    /// The stop request typed at the terminal.
    StopFromTerminal,
    /// Delivered for reading the terminal from a background group.
    BackgroundRead,
    /// Delivered for writing the terminal from a background group.
    BackgroundWrite,
}

/// What a process does with one of these signals.
#[derive(Clone, Copy, PartialEq, Eq, Structural, Debug)]
pub enum Disposition {
    /// The signal is ignored.
    Ignored,
    /// The operating system's default behaviour applies.
    Standard,
}

pub open spec fn job_signals() -> Seq<JobSignal> {
    seq![JobSignal::StopFromTerminal, JobSignal::BackgroundRead, JobSignal::BackgroundWrite]
}

pub open spec fn launcher_policy() -> Seq<(JobSignal, Disposition)> {
    job_signals().map_values(|s: JobSignal| (s, Disposition::Ignored))
}

pub open spec fn child_policy() -> Seq<(JobSignal, Disposition)> {
    job_signals().map_values(|s: JobSignal| (s, Disposition::Standard))
}

/// The dispositions the launcher installs for itself once at startup:
/// every job-control signal is ignored.
pub fn launcher_signal_policy() -> (v: Vec<(JobSignal, Disposition)>)
    ensures
        v@ == launcher_policy(),
{
    let mut v: Vec<(JobSignal, Disposition)> = Vec::new();
    v.push((JobSignal::StopFromTerminal, Disposition::Ignored));
    v.push((JobSignal::BackgroundRead, Disposition::Ignored));
    v.push((JobSignal::BackgroundWrite, Disposition::Ignored));
    proof {
        assert(v@ =~= launcher_policy());
    }
    v
}

/// The dispositions a freshly created child restores for itself before
/// the handshake wait: every job-control signal back to the default.
pub fn child_signal_policy() -> (v: Vec<(JobSignal, Disposition)>)
    ensures
        v@ == child_policy(),
{
    let mut v: Vec<(JobSignal, Disposition)> = Vec::new();
    v.push((JobSignal::StopFromTerminal, Disposition::Standard));
    v.push((JobSignal::BackgroundRead, Disposition::Standard));
    v.push((JobSignal::BackgroundWrite, Disposition::Standard));
    proof {
        assert(v@ =~= child_policy());
    }
    v
}

/// The two policies cover exactly the same three signals, in the same
/// order; the launcher ignores each of them, and the child restores each
/// to the default.  Only a freshly created child applies the restoring
/// policy, and only to itself.
pub proof fn lemma_policies_aligned()
    ensures
        launcher_policy().len() == job_signals().len(),
        child_policy().len() == job_signals().len(),
        forall|k: int|
            0 <= k < job_signals().len() ==> (#[trigger] launcher_policy()[k]).0
                == job_signals()[k] && launcher_policy()[k].1 == Disposition::Ignored,
        forall|k: int|
            0 <= k < job_signals().len() ==> (#[trigger] child_policy()[k]).0 == job_signals()[k]
                && child_policy()[k].1 == Disposition::Standard,
{
}

} // verus!
