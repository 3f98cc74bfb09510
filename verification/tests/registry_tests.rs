use self_replace::errors::OpError;
use self_replace::registry::PendingDeleteRegistration;

#[test]
fn single_registration_first_succeeds_second_fails() {
    let mut reg = PendingDeleteRegistration::new();
    assert!(!reg.armed());
    let first = reg.register(String::from("/tmp/.a.__selfdelete__.exe"), String::from("/tmp/.a.__relocated__.exe"));
    assert_eq!(first, Ok(()));
    assert!(reg.armed());
    let second = reg.register(String::from("/tmp/.b.__selfdelete__.exe"), String::from("/tmp/.b.__relocated__.exe"));
    assert_eq!(second, Err(OpError::AlreadyScheduled));
    assert!(reg.armed());
    let slot = reg.slot.as_ref().expect("first registration must still be in place");
    assert_eq!(slot.shadow, "/tmp/.a.__selfdelete__.exe");
    assert_eq!(slot.target, "/tmp/.a.__relocated__.exe");
}

#[test]
fn second_attempt_fails_regardless_of_arguments() {
    let mut reg = PendingDeleteRegistration::new();
    assert_eq!(reg.register(String::from("s"), String::from("t")), Ok(()));
    assert_eq!(
        reg.register(String::from("s"), String::from("t")),
        Err(OpError::AlreadyScheduled)
    );
    assert_eq!(
        OpError::AlreadyScheduled.message(),
        "deletion already scheduled"
    );
}
