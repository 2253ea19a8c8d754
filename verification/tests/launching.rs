use jobshell::launcher::{
    child_prepare, handshake_decision, run_stage_parent, stage_is_launchable, ChildVerdict,
    HandshakeEnd, JobTerminal, LaunchResult, ReadEvent,
};
use jobshell::model::{JcEvent, JobControlFake, SpawnSim};

#[test]
fn successful_launch_follows_the_protocol() {
    let mut fake = JobControlFake::new(100);
    let r = fake.launch_stage(100, SpawnSim::Created { child: 200 });
    assert_eq!(r, LaunchResult::Success);
    // The foreground designation names the launcher's group again.
    assert_eq!(fake.foreground, 100);
    // Exactly the protocol's five actions, in its order.
    assert_eq!(
        fake.events,
        vec![
            JcEvent::AssignGroup { pid: 200, pgid: 200 },
            JcEvent::SetForeground { pgid: 200 },
            JcEvent::ReleaseHandshake,
            JcEvent::AwaitChild { pid: 200 },
            JcEvent::SetForeground { pgid: 100 },
        ]
    );
}

#[test]
fn creation_failure_touches_nothing() {
    let mut fake = JobControlFake::new(100);
    let r = fake.launch_stage(100, SpawnSim::Failed { errno: 11 });
    assert_eq!(r, LaunchResult::CreationFailed { errno: 11 });
    assert_eq!(fake.foreground, 100);
    assert!(fake.events.is_empty());
}

#[test]
fn two_stages_launch_sequentially() {
    let mut fake = JobControlFake::new(7);
    let r1 = fake.launch_stage(7, SpawnSim::Created { child: 41 });
    let r2 = fake.launch_stage(7, SpawnSim::Created { child: 42 });
    assert_eq!(r1, LaunchResult::Success);
    assert_eq!(r2, LaunchResult::Success);
    assert_eq!(fake.foreground, 7);
    assert_eq!(fake.events.len(), 10);
    // The first stage's job was fully torn down before the second began.
    assert_eq!(fake.events[4], JcEvent::SetForeground { pgid: 7 });
    assert_eq!(fake.events[5], JcEvent::AssignGroup { pid: 42, pgid: 42 });
}

#[test]
fn creation_failure_then_next_stage_still_launches() {
    let mut fake = JobControlFake::new(7);
    let r1 = fake.launch_stage(7, SpawnSim::Failed { errno: 11 });
    let r2 = fake.launch_stage(7, SpawnSim::Created { child: 43 });
    assert_eq!(r1, LaunchResult::CreationFailed { errno: 11 });
    assert_eq!(r2, LaunchResult::Success);
    assert_eq!(fake.events.len(), 5);
}

#[test]
fn launchable_stages() {
    // Zero tokens — an all-whitespace or empty stage string — is refused.
    assert!(!stage_is_launchable(&vec![]));
    assert!(stage_is_launchable(&vec![String::from("echo"), String::from("hi")]));
    assert!(!stage_is_launchable(&vec![String::from("ec\u{0}ho")]));
}

#[test]
fn child_rejects_an_empty_stage_before_any_handshake() {
    // The descriptors are invalid on purpose: an empty stage must be
    // rejected before the handshake channel is touched.
    let mut term = JobTerminal::new(-1, 100);
    let verdict = child_prepare(&mut term, -1, -1, &vec![]);
    assert_eq!(verdict, ChildVerdict::InvalidStage);
}

#[test]
fn child_proceeds_once_the_channel_closes() {
    let (pipe_read, pipe_write) = nix::unistd::pipe().unwrap();
    // The child closes the write end itself; the read end then reports end
    // of channel at once, releasing the wait.
    let mut term = JobTerminal::new(-1, 100);
    let verdict = child_prepare(&mut term, pipe_read, pipe_write, &vec![String::from("echo")]);
    assert_eq!(
        verdict,
        ChildVerdict::ReadyToExec {
            handshake: HandshakeEnd::Released { end_of_channel: true }
        }
    );
    let _ = nix::unistd::close(pipe_read);
}

#[test]
fn child_proceeds_on_a_genuine_byte() {
    let (pipe_read, pipe_write) = nix::unistd::pipe().unwrap();
    // A byte already in the channel releases the wait even before the
    // channel's end is seen.
    nix::unistd::write(pipe_write, &[1u8]).unwrap();
    let mut term = JobTerminal::new(-1, 100);
    let verdict = child_prepare(&mut term, pipe_read, pipe_write, &vec![String::from("echo")]);
    assert_eq!(
        verdict,
        ChildVerdict::ReadyToExec {
            handshake: HandshakeEnd::Released { end_of_channel: false }
        }
    );
    let _ = nix::unistd::close(pipe_read);
}

#[test]
fn handshake_decisions_are_exact() {
    // An interruption decides nothing: the wait must retry.
    assert_eq!(handshake_decision(ReadEvent::Interrupted), None);
    // A genuine byte releases; the channel's end releases and says so.
    assert_eq!(
        handshake_decision(ReadEvent::Data { n: 1 }),
        Some(HandshakeEnd::Released { end_of_channel: false })
    );
    assert_eq!(
        handshake_decision(ReadEvent::Data { n: 0 }),
        Some(HandshakeEnd::Released { end_of_channel: true })
    );
    // An outright failure is a broken channel, not a release.
    assert_eq!(
        handshake_decision(ReadEvent::Failed { errno: 9 }),
        Some(HandshakeEnd::Broken { errno: 9 })
    );
}

#[test]
fn parent_reports_control_failures_without_crashing() {
    // No terminal and no such child: every control step fails, and the
    // failure must come back as a result, not a crash, so the run loop can
    // proceed to the next line.
    let mut term = JobTerminal::new(-1, 100);
    let r = run_stage_parent(&mut term, 100, 999_999_999, -1, -1);
    match r {
        LaunchResult::ControlFailed { .. } => {}
        other => panic!("expected a control failure, got {:?}", other),
    }
}
