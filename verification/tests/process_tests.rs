use nck_daemon::process::ChildProcess;
use nck_daemon::supervisor_process::{on_request, SupervisorRequest, SupervisorStep};

#[test]
fn new_handle_is_armed() {
    let child = ChildProcess::new(4242);
    assert_eq!(child.inner(), 4242);
    assert!(!child.is_detached());
}

#[test]
fn release_asks_to_reap_the_process() {
    let child = ChildProcess::new(4242);
    assert_eq!(child.release(), Some(4242));
}

#[test]
fn detached_handle_asks_for_nothing() {
    let mut child = ChildProcess::new(4242);
    child.forget();
    assert!(child.is_detached());
    assert_eq!(child.inner(), 4242);
    assert_eq!(child.release(), None);
}

#[test]
fn detaching_twice_stays_detached() {
    let mut child = ChildProcess::new(7);
    child.forget();
    child.forget();
    assert!(child.is_detached());
    assert_eq!(child.release(), None);
}

#[test]
fn supervisor_goes_on_only_when_mapped() {
    assert_eq!(on_request(Some(SupervisorRequest::UserMapped)), SupervisorStep::Proceed);
}

#[test]
fn supervisor_ends_itself_on_exit() {
    assert_eq!(on_request(Some(SupervisorRequest::Exit)), SupervisorStep::Terminate);
}

#[test]
fn supervisor_ends_itself_without_a_message() {
    assert_eq!(on_request(None), SupervisorStep::Terminate);
}
