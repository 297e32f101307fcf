use typst_cli::exit::ExitStatus;

#[test]
fn a_new_status_is_success() {
    let status = ExitStatus::new();
    assert_eq!(status, ExitStatus::Success);
    assert_eq!(status.code(), 0);
    assert!(!status.is_failure());
}

#[test]
fn the_default_status_is_success() {
    assert_eq!(ExitStatus::default(), ExitStatus::Success);
}

#[test]
fn set_failed_marks_the_status() {
    let mut status = ExitStatus::new();
    status.set_failed();
    assert_eq!(status, ExitStatus::Failure);
    assert_eq!(status.code(), 1);
    assert!(status.is_failure());
}

#[test]
fn set_failed_twice_is_set_failed_once() {
    let mut once = ExitStatus::new();
    once.set_failed();
    let mut twice = ExitStatus::new();
    twice.set_failed();
    twice.set_failed();
    assert_eq!(once, twice);
    assert_eq!(twice.code(), 1);
}

#[test]
fn exit_codes_are_zero_and_one() {
    assert_eq!(ExitStatus::Success.code(), 0);
    assert_eq!(ExitStatus::Failure.code(), 1);
}
