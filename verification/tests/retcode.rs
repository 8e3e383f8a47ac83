use minion_report::host::{HostStatus, Retcode};

#[test]
fn from_success() {
    assert_eq!(Retcode::Success, 0.into())
}

#[test]
fn from_failure() {
    for i in 1..10 {
        assert_eq!(Retcode::Failure, i.into())
    }
}

#[test]
fn large_codes_are_failures() {
    assert_eq!(Retcode::Failure, Retcode::from(u64::MAX));
    assert!(Retcode::from(255).is_failure());
    assert!(!Retcode::from(0).is_failure());
}

#[test]
fn defaults() {
    assert_eq!(Retcode::default(), Retcode::Failure);
    assert_eq!(HostStatus::default(), HostStatus::Uninitialized);
}

#[test]
fn only_success_is_success() {
    let all = vec![
        HostStatus::Uninitialized,
        HostStatus::Success,
        HostStatus::NoReturnCode,
        HostStatus::ReturnCodeNotNumber,
        HostStatus::RetValueIsNone,
        HostStatus::RetCodeWasNotNull,
        HostStatus::RetValueNotObject,
        HostStatus::RetValueObjectIsEmpty,
        HostStatus::DeletedMinion,
        HostStatus::DidNotRespond,
    ];
    for status in all {
        assert_eq!(status.is_success(), status == HostStatus::Success);
    }
}
