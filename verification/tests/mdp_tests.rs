use rl::mdp::{NotAllowed, TIME_STEP_DEFAULT, TIME_STEP_MAX};

#[test]
fn test() {}

#[test]
fn not_allowed_message() {
    let e = NotAllowed { a: 3u8 };
    assert_eq!(e.message(), "Action is not allowed in the current state.");
}

#[test]
fn time_step_constants() {
    assert!(0 < TIME_STEP_DEFAULT && TIME_STEP_DEFAULT <= TIME_STEP_MAX);
}
