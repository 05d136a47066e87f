use slashcloud::limiter::{authorization, record_limits, Bucket};

#[test]
fn exhausted_bucket_waits_until_reset() {
    let b = Bucket { remaining: 0, reset: 5000 };
    assert_eq!(b.delay_before_send(1200), Some(3800));
    // at the reset, no more waiting
    assert_eq!(b.delay_before_send(1200 + 3800), None);
}

#[test]
fn no_wait_when_reset_has_passed_or_requests_are_left() {
    assert_eq!(Bucket { remaining: 0, reset: 100 }.delay_before_send(100), None);
    assert_eq!(Bucket { remaining: 0, reset: 100 }.delay_before_send(200), None);
    assert_eq!(Bucket { remaining: 1, reset: 100000 }.delay_before_send(0), None);
    assert_eq!(Bucket { remaining: 0, reset: 0 }.delay_before_send(0), None);
}

#[test]
fn authorization_header() {
    assert_eq!(authorization("abc.def"), "Bot abc.def");
    assert_eq!(authorization(""), "Bot ");
}

#[test]
fn limits_from_headers() {
    assert_eq!(record_limits(Some(b"1700"), Some(b"4")), (1700, 4));
    assert_eq!(record_limits(None, Some(b"x")), (0, 0));
    assert_eq!(record_limits(Some(b"1470173023.123"), Some(b"-1")), (0, -1));
}
