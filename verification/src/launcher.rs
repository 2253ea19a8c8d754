//! Running one stage as a foreground job.
//!
//! The parent side, after process creation has succeeded, follows a fixed
//! protocol: make the child the leader of its own fresh process group, hand
//! the terminal's foreground designation to that group, release the
//! handshake so the child may proceed, wait for the child to terminate, and
//! finally take the foreground designation back — also on the error paths.
//! The child side waits on the handshake channel, retrying interrupted
//! reads, and only then is ready to replace its image with the target
//! program.

use vstd::prelude::*;

verus! {

/// One observation of the handshake channel.
#[derive(Clone, Copy, PartialEq, Eq, Structural, Debug)]
pub enum ReadEvent {
    /// `n` bytes arrived; zero bytes means the channel reached its end.
    Data { n: usize },
    /// The read was interrupted by a signal before anything arrived.
    Interrupted,
    /// The read failed outright.
    Failed { errno: i32 },
}

/// One job-control action of the launch protocol, as the launcher
/// attempts it.
#[derive(Clone, Copy, PartialEq, Eq, Structural, Debug)]
pub enum JcAttempt {
    /// Place process `pid` into process group `pgid`.
    AssignGroup { pid: i32, pgid: i32 },
    /// Hand the terminal's foreground designation to group `pgid`.
    HandForeground { pgid: i32 },
    /// Close one end of the handshake channel.
    CloseHandshakeEnd { fd: i32 },
    /// Wait for child `pid` to terminate.
    AwaitChild { pid: i32 },
}

/// The parent's protocol for one stage, as a sequence of attempts: group
/// assigned, foreground handed to the child, both handshake ends closed
/// (the release), the child awaited, and the foreground taken back.
pub open spec fn protocol_attempts(child: i32, self_pg: i32, read_fd: i32, write_fd: i32) -> Seq<
    JcAttempt,
> {
    seq![
        (JcAttempt::AssignGroup { pid: child, pgid: child }),
        (JcAttempt::HandForeground { pgid: child }),
        (JcAttempt::CloseHandshakeEnd { fd: read_fd }),
        (JcAttempt::CloseHandshakeEnd { fd: write_fd }),
        (JcAttempt::AwaitChild { pid: child }),
        (JcAttempt::HandForeground { pgid: self_pg }),
    ]
}

/// What one observation of the handshake channel decides for the waiting
/// child: an interrupted read decides nothing and must be retried; any
/// genuine byte or the channel's end is the release; an outright failure
/// is a broken channel.
pub open spec fn decision_of(ev: ReadEvent) -> Option<HandshakeEnd> {
    match ev {
        ReadEvent::Interrupted => None,
        ReadEvent::Data { n } => Some(HandshakeEnd::Released { end_of_channel: n == 0 }),
        ReadEvent::Failed { errno } => Some(HandshakeEnd::Broken { errno }),
    }
}

/// The job-control capability: the controlling terminal, the process
/// group the launcher last successfully designated as its foreground
/// group, and the ordered records of every job-control action attempted,
/// of every one that succeeded, and of every handshake observation made.
pub struct JobTerminal {
    fd: i32,
    owner: Ghost<int>,
    handed: Ghost<Seq<int>>,
    attempts: Ghost<Seq<JcAttempt>>,
    completed: Ghost<Seq<JcAttempt>>,
    seen: Ghost<Seq<ReadEvent>>,
}

/// The outcome of launching one stage from the parent's side.
#[derive(Clone, Copy, PartialEq, Eq, Structural, Debug)]
pub enum LaunchResult {
    /// The child ran as the foreground job and was waited on, and the
    /// launcher holds the foreground designation again.
    Success,
    /// Process creation itself failed: no child exists and the terminal
    /// was never touched.
    CreationFailed { errno: i32 },
    /// A process-group, wait, or terminal-control step failed; `errno` is
    /// the first failure's cause.  `restored` says whether the foreground
    /// designation points back at the launcher.
    ControlFailed { errno: i32, restored: bool },
}

/// What a freshly created child concludes before replacing its image.
#[derive(Clone, Copy, PartialEq, Eq, Structural, Debug)]
pub enum ChildVerdict {
    /// The stage cannot be handed to the process-creation primitive; the
    /// child must terminate with a diagnostic.
    InvalidStage,
    /// The handshake wait has ended — `handshake` says how — and the child
    /// may replace its image with the target program.  A broken channel is
    /// surfaced so the caller can report it; it is not a release, but
    /// after it no release can ever arrive, so waiting on is pointless and
    /// the child proceeds, as it does on any ended wait.
    ReadyToExec { handshake: HandshakeEnd },
}

/// How the child's wait on the handshake channel ended.
#[derive(Clone, Copy, PartialEq, Eq, Structural, Debug)]
pub enum HandshakeEnd {
    /// A genuine byte or the channel's end was observed.
    Released { end_of_channel: bool },
    /// The channel failed for a reason other than an interruption.
    Broken { errno: i32 },
}

/// A stage may be handed to the process-creation primitive: it has at
/// least one token, and no token holds an interior NUL character.
pub open spec fn launchable(tokens: Seq<Seq<char>>) -> bool {
    &&& tokens.len() > 0
    &&& forall|i: int| 0 <= i < tokens.len() ==> !(#[trigger] tokens[i]).contains('\u{0}')
}

impl JobTerminal {
    /// The process group the launcher last successfully handed the
    /// terminal's foreground designation to.
    pub closed spec fn current_owner(self) -> int {
        self.owner@
    }

    pub closed spec fn spec_fd(self) -> int {
        self.fd as int
    }

    /// Every process group the foreground designation was successfully
    /// handed to, oldest first.
    pub closed spec fn handoffs(self) -> Seq<int> {
        self.handed@
    }

    /// Every job-control action attempted through this capability, in
    /// order, whether or not it succeeded.
    pub closed spec fn attempted(self) -> Seq<JcAttempt> {
        self.attempts@
    }

    /// Every job-control action that succeeded, in order.
    pub closed spec fn succeeded(self) -> Seq<JcAttempt> {
        self.completed@
    }

    /// Every observation made of the handshake channel, in order.
    pub closed spec fn observed(self) -> Seq<ReadEvent> {
        self.seen@
    }

    /// Takes charge of the terminal open on `fd`, whose foreground
    /// designation currently names the group `owner_pg`.
    pub fn new(fd: i32, owner_pg: i32) -> (t: JobTerminal)
        ensures
            t.current_owner() == owner_pg,
            t.spec_fd() == fd,
            t.handoffs() == Seq::<int>::empty(),
            t.attempted() == Seq::<JcAttempt>::empty(),
            t.succeeded() == Seq::<JcAttempt>::empty(),
            t.observed() == Seq::<ReadEvent>::empty(),
    {
        JobTerminal {
            fd,
            owner: Ghost(owner_pg as int),
            handed: Ghost(Seq::empty()),
            attempts: Ghost(Seq::empty()),
            completed: Ghost(Seq::empty()),
            seen: Ghost(Seq::empty()),
        }
    }

    /// Relies on nix::unistd::read: reads at most one byte of the
    /// handshake channel from `handshake_fd` — at most one because the
    /// buffer handed to the call holds one — and records the observation.
    /// An interruption by a signal and any other failure are told apart,
    /// since only the former may be retried.
    #[verifier::external_body]
    pub fn observe_handshake(&mut self, handshake_fd: i32) -> (r: ReadEvent)
        ensures
            final(self).spec_fd() == old(self).spec_fd(),
            final(self).current_owner() == old(self).current_owner(),
            final(self).handoffs() == old(self).handoffs(),
            final(self).attempted() == old(self).attempted(),
            final(self).succeeded() == old(self).succeeded(),
            final(self).observed() == old(self).observed().push(r),
            r matches ReadEvent::Data { n } ==> n <= 1,
    {
        let mut buf: [u8; 1] = [0];
        match nix::unistd::read(handshake_fd, &mut buf) {
            Ok(n) => ReadEvent::Data { n },
            Err(nix::errno::Errno::EINTR) => ReadEvent::Interrupted,
            Err(e) => ReadEvent::Failed { errno: e as i32 },
        }
    }

    /// Relies on nix::unistd::tcsetpgrp: on success the terminal's
    /// foreground designation names the process group `pgid`; on failure
    /// the designation is unchanged and the errno is returned.
    #[verifier::external_body]
    pub fn set_foreground(&mut self, pgid: i32) -> (r: Result<(), i32>)
        ensures
            final(self).spec_fd() == old(self).spec_fd(),
            final(self).observed() == old(self).observed(),
            final(self).attempted() == old(self).attempted().push(
                (JcAttempt::HandForeground { pgid }),
            ),
            r is Ok ==> final(self).current_owner() == pgid,
            r is Ok ==> final(self).handoffs() == old(self).handoffs().push(pgid as int),
            r is Ok ==> final(self).succeeded() == old(self).succeeded().push(
                (JcAttempt::HandForeground { pgid }),
            ),
            r is Err ==> final(self).current_owner() == old(self).current_owner(),
            r is Err ==> final(self).handoffs() == old(self).handoffs(),
            r is Err ==> final(self).succeeded() == old(self).succeeded(),
    {
        match nix::unistd::tcsetpgrp(self.fd, nix::unistd::Pid::from_raw(pgid)) {
            Ok(()) => Ok(()),
            Err(e) => Err(e as i32),
        }
    }

    /// Relies on nix::unistd::setpgid: on success the process `pid` has
    /// been placed into the process group `pgid`; on failure it returns
    /// the errno.  The terminal's designation is untouched either way.
    #[verifier::external_body]
    pub fn assign_group(&mut self, pid: i32, pgid: i32) -> (r: Result<(), i32>)
        ensures
            final(self).spec_fd() == old(self).spec_fd(),
            final(self).current_owner() == old(self).current_owner(),
            final(self).handoffs() == old(self).handoffs(),
            final(self).observed() == old(self).observed(),
            final(self).attempted() == old(self).attempted().push(
                (JcAttempt::AssignGroup { pid, pgid }),
            ),
            r is Ok ==> final(self).succeeded() == old(self).succeeded().push(
                (JcAttempt::AssignGroup { pid, pgid }),
            ),
            r is Err ==> final(self).succeeded() == old(self).succeeded(),
    {
        match nix::unistd::setpgid(nix::unistd::Pid::from_raw(pid), nix::unistd::Pid::from_raw(pgid)) {
            Ok(()) => Ok(()),
            Err(e) => Err(e as i32),
        }
    }

    /// Relies on nix::unistd::close: closes one end of the handshake
    /// channel.  The terminal's designation is untouched either way.
    #[verifier::external_body]
    pub fn close_handshake_end(&mut self, handshake_fd: i32) -> (r: Result<(), i32>)
        ensures
            final(self).spec_fd() == old(self).spec_fd(),
            final(self).current_owner() == old(self).current_owner(),
            final(self).handoffs() == old(self).handoffs(),
            final(self).observed() == old(self).observed(),
            final(self).attempted() == old(self).attempted().push(
                (JcAttempt::CloseHandshakeEnd { fd: handshake_fd }),
            ),
            r is Ok ==> final(self).succeeded() == old(self).succeeded().push(
                (JcAttempt::CloseHandshakeEnd { fd: handshake_fd }),
            ),
            r is Err ==> final(self).succeeded() == old(self).succeeded(),
    {
        match nix::unistd::close(handshake_fd) {
            Ok(()) => Ok(()),
            Err(e) => Err(e as i32),
        }
    }

    /// Relies on nix::sys::wait::waitpid: blocks until the child `pid`
    /// has terminated or changed state, and reports only whether waiting
    /// worked.  The terminal's designation is untouched either way.
    #[verifier::external_body]
    pub fn await_child(&mut self, pid: i32) -> (r: Result<(), i32>)
        ensures
            final(self).spec_fd() == old(self).spec_fd(),
            final(self).current_owner() == old(self).current_owner(),
            final(self).handoffs() == old(self).handoffs(),
            final(self).observed() == old(self).observed(),
            final(self).attempted() == old(self).attempted().push(
                (JcAttempt::AwaitChild { pid }),
            ),
            r is Ok ==> final(self).succeeded() == old(self).succeeded().push(
                (JcAttempt::AwaitChild { pid }),
            ),
            r is Err ==> final(self).succeeded() == old(self).succeeded(),
    {
        match nix::sys::wait::waitpid(nix::unistd::Pid::from_raw(pid), None) {
            Ok(_) => Ok(()),
            Err(e) => Err(e as i32),
        }
    }
}

/// The parent's half of launching one stage, entered once process creation
/// has yielded the child `child`.  The child is made the leader of its own
/// process group and handed the terminal's foreground designation; both
/// handshake descriptors are then closed, releasing the child; the child
/// is waited on; and the foreground designation is taken back for
/// `self_pg`, the launcher's own group, on every path.  On every path,
/// success or failure, all six protocol actions are attempted, in the
/// protocol's order, and the terminal is handed to no group but the
/// child's and then the launcher's.  The result is `Success` exactly when
/// every attempted action succeeded — a failure of the group assignment,
/// of a handoff, of a handshake close, or of the wait itself is reported
/// as `ControlFailed` with the first failure's errno — and whenever the
/// foreground designation does not point back at the launcher, that is
/// reported as an unrestored failure.
pub fn run_stage_parent(
    term: &mut JobTerminal,
    self_pg: i32,
    child: i32,
    handshake_read: i32,
    handshake_write: i32,
) -> (r: LaunchResult)
    ensures
        r is Success ==> final(term).current_owner() == self_pg,
        r is Success ==> final(term).handoffs() == old(term).handoffs() + seq![
            child as int,
            self_pg as int,
        ],
        final(term).handoffs() == old(term).handoffs()
            || final(term).handoffs() == old(term).handoffs().push(child as int)
            || final(term).handoffs() == old(term).handoffs().push(self_pg as int)
            || final(term).handoffs() == old(term).handoffs().push(child as int).push(self_pg as int),
        (r matches LaunchResult::ControlFailed { restored, .. } && restored)
            ==> final(term).current_owner() == self_pg,
        final(term).current_owner() != self_pg
            ==> (r matches LaunchResult::ControlFailed { restored, .. } && !restored),
        !(r is CreationFailed),
        final(term).spec_fd() == old(term).spec_fd(),
        final(term).observed() == old(term).observed(),
        final(term).attempted() == old(term).attempted() + protocol_attempts(
            child,
            self_pg,
            handshake_read,
            handshake_write,
        ),
        r is Success <==> final(term).succeeded() == old(term).succeeded() + protocol_attempts(
            child,
            self_pg,
            handshake_read,
            handshake_write,
        ),
{
    let ghost steps = protocol_attempts(child, self_pg, handshake_read, handshake_write);
    let mut failed: bool = false;
    let mut first_errno: i32 = 0;
    match term.assign_group(child, child) {
        Ok(()) => {},
        Err(e) => {
            failed = true;
            first_errno = e;
        },
    }
    match term.set_foreground(child) {
        Ok(()) => {},
        Err(e) => {
            if !failed {
                failed = true;
                first_errno = e;
            }
        },
    }
    match term.close_handshake_end(handshake_read) {
        Ok(()) => {},
        Err(e) => {
            if !failed {
                failed = true;
                first_errno = e;
            }
        },
    }
    match term.close_handshake_end(handshake_write) {
        Ok(()) => {},
        Err(e) => {
            if !failed {
                failed = true;
                first_errno = e;
            }
        },
    }
    match term.await_child(child) {
        Ok(()) => {},
        Err(e) => {
            if !failed {
                failed = true;
                first_errno = e;
            }
        },
    }
    let restore = term.set_foreground(self_pg);
    proof {
        assert(term.attempted() =~= old(term).attempted() + steps);
        if !failed && restore is Ok {
            assert(term.succeeded() =~= old(term).succeeded() + steps);
            assert(term.handoffs() =~= old(term).handoffs() + seq![child as int, self_pg as int]);
        } else {
            assert(term.succeeded().len() < old(term).succeeded().len() + steps.len());
        }
    }
    match restore {
        Ok(()) => {
            if failed {
                LaunchResult::ControlFailed { errno: first_errno, restored: true }
            } else {
                LaunchResult::Success
            }
        },
        Err(e) => {
            let errno = if failed {
                first_errno
            } else {
                e
            };
            LaunchResult::ControlFailed { errno, restored: false }
        },
    }
}

/// What one observation of the handshake channel means for the waiting
/// child: an interrupted read decides nothing — it must be retried, never
/// taken for a completion; a genuine byte or the channel's end is the
/// parent's release; an outright failure is a broken channel, which is
/// not a release either.
pub fn handshake_decision(ev: ReadEvent) -> (d: Option<HandshakeEnd>)
    ensures
        d == decision_of(ev),
        ev is Interrupted <==> d is None,
{
    match ev {
        ReadEvent::Interrupted => None,
        ReadEvent::Data { n } => Some(HandshakeEnd::Released { end_of_channel: n == 0 }),
        ReadEvent::Failed { errno } => Some(HandshakeEnd::Broken { errno }),
    }
}

/// The child's wait on the handshake channel: observations are made until
/// one decides, and the result is exactly the first non-interrupted
/// observation's decision — every earlier observation was an
/// interruption, retried, never taken for a completion.  The retry budget
/// exists only to make the wait a total function; were it ever exhausted
/// — which would take an interruption per iteration — the channel is
/// reported broken with no errno, the last observation being itself an
/// interruption.
pub fn await_parent_release(term: &mut JobTerminal, handshake_read: i32) -> (r: HandshakeEnd)
    ensures
        final(term).spec_fd() == old(term).spec_fd(),
        final(term).current_owner() == old(term).current_owner(),
        final(term).handoffs() == old(term).handoffs(),
        final(term).attempted() == old(term).attempted(),
        final(term).succeeded() == old(term).succeeded(),
        final(term).observed().len() > old(term).observed().len(),
        forall|k: int|
            old(term).observed().len() <= k < final(term).observed().len() - 1
                ==> (#[trigger] final(term).observed()[k]) is Interrupted,
        decision_of(final(term).observed().last()) matches Some(d) ==> r == d,
        final(term).observed().last() is Interrupted ==> r == (HandshakeEnd::Broken { errno: 0 }),
{
    let mut fuel: u64 = u64::MAX;
    while fuel > 0
        invariant
            term.spec_fd() == old(term).spec_fd(),
            term.current_owner() == old(term).current_owner(),
            term.handoffs() == old(term).handoffs(),
            term.attempted() == old(term).attempted(),
            term.succeeded() == old(term).succeeded(),
            term.observed().len() >= old(term).observed().len(),
            fuel < u64::MAX ==> term.observed().len() > old(term).observed().len(),
            fuel < u64::MAX ==> term.observed().last() is Interrupted,
            forall|k: int|
                old(term).observed().len() <= k < term.observed().len()
                    ==> (#[trigger] term.observed()[k]) is Interrupted,
        decreases fuel,
    {
        fuel = fuel - 1;
        let ev = term.observe_handshake(handshake_read);
        match handshake_decision(ev) {
            None => {},
            Some(end) => {
                return end;
            },
        }
    }
    HandshakeEnd::Broken { errno: 0 }
}

/// Whether `tokens` may be handed to the process-creation primitive.
pub fn stage_is_launchable(tokens: &Vec<String>) -> (b: bool)
    ensures
        b == launchable(tokens@.map_values(|t: String| t@)),
{
    let ghost view = tokens@.map_values(|t: String| t@);
    if tokens.len() == 0 {
        return false;
    }
    let mut i: usize = 0;
    while i < tokens.len()
        invariant
            i <= tokens@.len(),
            view == tokens@.map_values(|t: String| t@),
            tokens@.len() > 0,
            forall|k: int| 0 <= k < i ==> !(#[trigger] view[k]).contains('\u{0}'),
        decreases tokens@.len() - i,
    {
        let t: &String = &tokens[i];
        let n = t.as_str().unicode_len();
        let mut j: usize = 0;
        while j < n
            invariant
                j <= n,
                n == t@.len(),
                i < tokens@.len(),
                view == tokens@.map_values(|t2: String| t2@),
                t@ == tokens@[i as int]@,
                forall|k: int| 0 <= k < j ==> t@[k] != '\u{0}',
            decreases n - j,
        {
            if t.as_str().get_char(j) == '\u{0}' {
                proof {
                    assert(view[i as int] == t@);
                    assert(t@.contains('\u{0}')) by {
                        assert(t@[j as int] == '\u{0}');
                    }
                }
                return false;
            }
            j = j + 1;
        }
        proof {
            assert(view[i as int] == t@);
            assert(!view[i as int].contains('\u{0}'));
        }
        i = i + 1;
    }
    true
}

/// Everything the child decides between its creation and the replacement
/// of its image: reject a stage that cannot be launched, close its copy of
/// the handshake's write end, and wait for the parent's release, retrying
/// interrupted reads.  The verdict is `ReadyToExec` exactly when the stage
/// is launchable, and carries how the handshake wait ended; an invalid
/// stage is refused before the channel — or anything else — is touched.
/// After any verdict the child must terminate — either by replacing its
/// image or with a diagnostic and a non-zero status — and never continue
/// into the launcher's own logic.
pub fn child_prepare(
    term: &mut JobTerminal,
    handshake_read: i32,
    handshake_write: i32,
    tokens: &Vec<String>,
) -> (r: ChildVerdict)
    ensures
        r is ReadyToExec <==> launchable(tokens@.map_values(|t: String| t@)),
        r is InvalidStage ==> *final(term) == *old(term),
        final(term).current_owner() == old(term).current_owner(),
        final(term).handoffs() == old(term).handoffs(),
        r is ReadyToExec ==> final(term).attempted() == old(term).attempted().push(
            (JcAttempt::CloseHandshakeEnd { fd: handshake_write }),
        ),
        r is ReadyToExec ==> final(term).observed().len() > old(term).observed().len(),
        r matches ChildVerdict::ReadyToExec { handshake } ==> (decision_of(
            final(term).observed().last(),
        ) matches Some(d) ==> handshake == d),
        r matches ChildVerdict::ReadyToExec { handshake }
            ==> (final(term).observed().last() is Interrupted ==> handshake == (
        HandshakeEnd::Broken { errno: 0 })),
        forall|k: int|
            old(term).observed().len() <= k < final(term).observed().len() - 1
                ==> (#[trigger] final(term).observed()[k]) is Interrupted,
{
    if !stage_is_launchable(tokens) {
        return ChildVerdict::InvalidStage;
    }
    let _ = term.close_handshake_end(handshake_write);
    let handshake = await_parent_release(term, handshake_read);
    ChildVerdict::ReadyToExec { handshake }
}

} // verus!
