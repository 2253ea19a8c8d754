use jobshell::signals::{child_signal_policy, launcher_signal_policy, Disposition, JobSignal};

#[test]
fn launcher_ignores_all_job_control_signals() {
    let policy = launcher_signal_policy();
    assert_eq!(
        policy,
        vec![
            (JobSignal::StopFromTerminal, Disposition::Ignored),
            (JobSignal::BackgroundRead, Disposition::Ignored),
            (JobSignal::BackgroundWrite, Disposition::Ignored),
        ]
    );
}

#[test]
fn child_restores_all_job_control_signals() {
    let policy = child_signal_policy();
    assert_eq!(
        policy,
        vec![
            (JobSignal::StopFromTerminal, Disposition::Standard),
            (JobSignal::BackgroundRead, Disposition::Standard),
            (JobSignal::BackgroundWrite, Disposition::Standard),
        ]
    );
}

#[test]
fn policies_cover_the_same_signals() {
    let ours = launcher_signal_policy();
    let childs = child_signal_policy();
    assert_eq!(ours.len(), childs.len());
    for (a, b) in ours.iter().zip(childs.iter()) {
        assert_eq!(a.0, b.0);
        assert_ne!(a.1, b.1);
    }
}
