use exe_proxy::status::{Failure, Termination, WaitOutcome};

fn all_failures() -> Vec<Failure> {
    vec![
        Failure::ConfigMissing,
        Failure::ConfigUnreadable,
        Failure::ConfigMultipleLines,
        Failure::ConfigEmpty,
        Failure::LogCreate,
        Failure::LogHeader,
        Failure::Spawn,
        Failure::Relay,
        Failure::Wait,
        Failure::NoStatus,
    ]
}

#[test]
fn failure_codes_are_fixed() {
    assert_eq!(Failure::ConfigMissing.code(), 69002);
    assert_eq!(Failure::ConfigUnreadable.code(), 69003);
    assert_eq!(Failure::Spawn.code(), 69004);
    assert_eq!(Failure::Relay.code(), 69005);
    assert_eq!(Failure::Wait.code(), 69006);
    assert_eq!(Failure::NoStatus.code(), 69007);
    assert_eq!(Failure::ConfigMultipleLines.code(), 69008);
    assert_eq!(Failure::ConfigEmpty.code(), 69009);
    assert_eq!(Failure::LogCreate.code(), 690010);
    assert_eq!(Failure::LogHeader.code(), 69011);
}

#[test]
fn failure_codes_are_distinct_and_not_zero() {
    let all = all_failures();
    for (i, a) in all.iter().enumerate() {
        assert_ne!(a.code(), 0);
        for (j, b) in all.iter().enumerate() {
            assert_eq!(a.code() == b.code(), i == j);
        }
    }
}

#[test]
fn target_status_is_handed_through() {
    for code in [0, 1, 2, 42, 255, -1, 69002, i32::MAX, i32::MIN] {
        assert_eq!(Termination::after_wait(&WaitOutcome::Status(code)), Termination::Exited(code));
        assert_eq!(Termination::Exited(code).code(), code);
    }
}

#[test]
fn target_without_status_has_its_own_code() {
    let t = Termination::after_wait(&WaitOutcome::NoStatus);
    assert_eq!(t, Termination::Failed(Failure::NoStatus));
    assert_eq!(t.code(), 69007);
}

#[test]
fn failed_wait_has_its_own_code() {
    let t = Termination::after_wait(&WaitOutcome::Failed("no child".to_string()));
    assert_eq!(t, Termination::Failed(Failure::Wait));
    assert_eq!(t.code(), 69006);
}

#[test]
fn failed_termination_has_the_failure_code() {
    for f in all_failures() {
        assert_eq!(Termination::Failed(f).code(), f.code());
    }
}
