//! An injectable stand-in for the process-group and terminal-control
//! primitives.  It records every ownership change as an event, so the
//! launch protocol's exact sequence — group assigned, foreground handed to
//! the child, handshake released, child awaited, foreground restored — can
//! be stated, proved, and checked against a run that touches no real
//! terminal.

use vstd::prelude::*;
use crate::launcher::LaunchResult;

verus! {

/// One job-control action, in the order the launcher performed it.
#[derive(Clone, Copy, PartialEq, Eq, Structural, Debug)]
pub enum JcEvent {
    /// Process `pid` was placed into process group `pgid`.
    AssignGroup { pid: i32, pgid: i32 },
    /// The terminal's foreground designation was set to group `pgid`.
    SetForeground { pgid: i32 },
    /// The handshake channel was closed, releasing the child.
    ReleaseHandshake,
    /// Child `pid` was waited on until it terminated.
    AwaitChild { pid: i32 },
}

/// How a simulated process creation came out.
#[derive(Clone, Copy, PartialEq, Eq, Structural, Debug)]
pub enum SpawnSim {
    /// A child was created with the given process id.
    Created { child: i32 },
    /// Creation failed with the given errno; no child exists.
    Failed { errno: i32 },
}

/// The fake terminal-control collaborator: the current foreground
/// designation, and the full ordered record of job-control actions.
pub struct JobControlFake {
    pub foreground: i32,
    pub events: Vec<JcEvent>,
}

impl JobControlFake {
    /// A fresh fake whose foreground designation names group `fg`.
    pub fn new(fg: i32) -> (t: JobControlFake)
        ensures
            t.foreground == fg,
            t.events@ == Seq::<JcEvent>::empty(),
    {
        JobControlFake { foreground: fg, events: Vec::new() }
    }

    pub fn assign_group(&mut self, pid: i32, pgid: i32)
        ensures
            final(self).foreground == old(self).foreground,
            final(self).events@ == old(self).events@.push(
                (JcEvent::AssignGroup { pid, pgid }),
            ),
    {
        self.events.push(JcEvent::AssignGroup { pid, pgid });
    }

    pub fn set_foreground(&mut self, pgid: i32)
        ensures
            final(self).foreground == pgid,
            final(self).events@ == old(self).events@.push((JcEvent::SetForeground { pgid })),
    {
        self.foreground = pgid;
        self.events.push(JcEvent::SetForeground { pgid });
    }

    pub fn release_handshake(&mut self)
        ensures
            final(self).foreground == old(self).foreground,
            final(self).events@ == old(self).events@.push(JcEvent::ReleaseHandshake),
    {
        self.events.push(JcEvent::ReleaseHandshake);
    }

    pub fn await_child(&mut self, pid: i32)
        ensures
            final(self).foreground == old(self).foreground,
            final(self).events@ == old(self).events@.push((JcEvent::AwaitChild { pid })),
    {
        self.events.push(JcEvent::AwaitChild { pid });
    }

    /// One stage's launch, run against the fake collaborator.  The
    /// foreground designation names the launcher's group `self_pg` both on
    /// entry and on return.  If creation failed, nothing at all is done:
    /// no group assignment, no handoff, and the failure is reported.  If a
    /// child was created, exactly the protocol's five actions happen, in
    /// its order, and the launch succeeds.
    pub fn launch_stage(&mut self, self_pg: i32, spawn: SpawnSim) -> (r: LaunchResult)
        requires
            old(self).foreground == self_pg,
        ensures
            final(self).foreground == self_pg,
            spawn matches SpawnSim::Failed { errno }
                ==> r == (LaunchResult::CreationFailed { errno }) && *final(self) == *old(self),
            spawn matches SpawnSim::Created { child }
                ==> r == LaunchResult::Success && final(self).events@ == old(self).events@ + seq![
                (JcEvent::AssignGroup { pid: child, pgid: child }),
                (JcEvent::SetForeground { pgid: child }),
                JcEvent::ReleaseHandshake,
                (JcEvent::AwaitChild { pid: child }),
                (JcEvent::SetForeground { pgid: self_pg }),
            ],
    {
        match spawn {
            SpawnSim::Failed { errno } => LaunchResult::CreationFailed { errno },
            SpawnSim::Created { child } => {
                self.assign_group(child, child);
                self.set_foreground(child);
                self.release_handshake();
                self.await_child(child);
                self.set_foreground(self_pg);
                proof {
                    assert(self.events@ =~= old(self).events@ + seq![
                        (JcEvent::AssignGroup { pid: child, pgid: child }),
                        (JcEvent::SetForeground { pgid: child }),
                        JcEvent::ReleaseHandshake,
                        (JcEvent::AwaitChild { pid: child }),
                        (JcEvent::SetForeground { pgid: self_pg }),
                    ]);
                }
                LaunchResult::Success
            },
        }
    }
}

} // verus!
