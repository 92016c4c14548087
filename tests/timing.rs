use sawtooth_pbft::{Timeout, TimeoutState};

#[test]
fn new_timeout_is_inactive() {
    let mut t = Timeout::new(100);
    assert_eq!(t.state, TimeoutState::Inactive);
    assert_eq!(t.duration, 100);
    assert!(!t.is_expired(1_000_000));
}

#[test]
fn active_timeout_expires_after_its_duration() {
    let mut t = Timeout::new(100);
    t.start(50);
    assert_eq!(t.state, TimeoutState::Active);
    assert!(!t.is_expired(120));
    assert!(!t.is_expired(150));
    assert!(t.is_expired(151));
    assert_eq!(t.state, TimeoutState::Expired);
    // an expired timer stays expired until restarted
    assert!(t.is_expired(0));
    t.start(200);
    assert!(!t.is_expired(250));
}

#[test]
fn stopped_timeout_does_not_expire() {
    let mut t = Timeout::new(10);
    t.start(0);
    t.stop(5);
    assert_eq!(t.state, TimeoutState::Inactive);
    assert_eq!(t.start, 5);
    assert!(!t.is_expired(1000));
}

#[test]
fn clock_before_start_is_not_expiry() {
    let mut t = Timeout::new(0);
    t.start(100);
    assert!(!t.is_expired(50));
    assert!(!t.is_expired(100));
    assert!(t.is_expired(101));
}
