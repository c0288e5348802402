use meeps::instance::{startup_gate, LockAttempt, StartupGate};

#[test]
fn holder_of_the_lock_proceeds() {
    assert!(matches!(startup_gate(&LockAttempt::Acquired), StartupGate::Proceed));
}

#[test]
fn second_instance_exits_non_zero() {
    match startup_gate(&LockAttempt::HeldElsewhere) {
        StartupGate::Abort { code, message } => {
            assert_eq!(code, 1);
            assert_eq!(message, "Another instance of Meeps is already running.");
        }
        StartupGate::Proceed => panic!("a second instance must not proceed"),
    }
}

#[test]
fn unavailable_lock_is_reported_separately() {
    match startup_gate(&LockAttempt::Unavailable { detail: "permission denied".to_string() }) {
        StartupGate::Abort { code, message } => {
            assert_eq!(code, 2);
            assert_eq!(message, "Could not set up the single-instance lock: permission denied");
        }
        StartupGate::Proceed => panic!("an unavailable lock must not proceed"),
    }
}

fn attempt_for(held: &Result<named_lock::NamedLockGuard, named_lock::Error>) -> LockAttempt {
    match held {
        Ok(_) => LockAttempt::Acquired,
        Err(named_lock::Error::WouldBlock) => LockAttempt::HeldElsewhere,
        Err(e) => LockAttempt::Unavailable { detail: e.to_string() },
    }
}

#[test]
fn a_held_named_lock_stops_the_second_launch() {
    let name = "meeps_gate_test_second_launch";
    let first = named_lock::NamedLock::create(&name).unwrap();
    let first_held = first.try_lock();
    assert!(matches!(startup_gate(&attempt_for(&first_held)), StartupGate::Proceed));

    let second = named_lock::NamedLock::create(&name).unwrap();
    let second_held = second.try_lock();
    match startup_gate(&attempt_for(&second_held)) {
        StartupGate::Abort { code, .. } => assert_ne!(code, 0),
        StartupGate::Proceed => panic!("the lock is held by the first launch"),
    }
}
