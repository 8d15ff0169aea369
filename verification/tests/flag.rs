use call_once::CallOnce;
use call_once::CallOnceError;

#[test]
fn fresh_flag_is_unclaimed() {
    let flag = CallOnce::new();
    assert!(!flag.was_called());
}

#[test]
fn first_call_succeeds() {
    let mut flag = CallOnce::new();
    assert!(flag.call_once().is_ok());
}

#[test]
fn second_call_fails() {
    let mut flag = CallOnce::new();
    assert!(flag.call_once().is_ok());
    assert!(flag.call_once().is_err());
}

#[test]
fn repeated_calls_keep_failing() {
    let mut flag = CallOnce::new();
    assert!(flag.call_once().is_ok());
    for _ in 0..1000 {
        assert!(flag.call_once().is_err());
        assert!(flag.was_called());
    }
}

#[test]
fn query_tracks_the_claim() {
    let mut flag = CallOnce::new();
    assert!(!flag.was_called());
    assert!(flag.call_once().is_ok());
    assert!(flag.was_called());
    assert!(flag.call_once().is_err());
    assert!(flag.was_called());
}

#[test]
fn example_scenario() {
    let mut f = CallOnce::new();
    assert!(!f.was_called());
    assert!(f.call_once().is_ok());
    assert!(f.was_called());
    assert!(f.call_once().is_err());
    assert!(f.call_once().is_err());
}

#[test]
fn default_flag_is_unclaimed() {
    let mut flag = CallOnce::default();
    assert!(!flag.was_called());
    assert!(flag.call_once().is_ok());
}

#[test]
fn error_message_text() {
    let mut flag = CallOnce::new();
    assert!(flag.call_once().is_ok());
    let err = flag.call_once().unwrap_err();
    assert_eq!(err.message(), "call_once was executed more than once");
}

#[test]
fn error_message_of_plain_error() {
    let err = CallOnceError;
    assert_eq!(err.message(), "call_once was executed more than once");
}
