use zcore::delay::{msdelay, usdelay};

#[test]
fn usdelay_deadline() {
    // 10 us at 62.5 MHz is 625 ticks.
    let d = usdelay(10, 62_500_000, 1000);
    assert!(!d.expired(1624));
    assert!(d.expired(1625));
    assert!(d.expired(1_000_000));
}

#[test]
fn usdelay_rounds_ticks_down() {
    // 1 us at 1.5 MHz is 1.5 ticks, rounded down to 1.
    let d = usdelay(1, 1_500_000, 0);
    assert!(!d.expired(0));
    assert!(d.expired(1));
}

#[test]
fn zero_delay_is_over_at_once() {
    let d = usdelay(0, 62_500_000, 500);
    assert!(d.expired(500));
    assert!(!d.expired(499));
}

#[test]
fn msdelay_is_thousand_usdelay() {
    let freq = 24_000_000;
    let a = msdelay(3, freq, 77);
    let b = usdelay(3000, freq, 77);
    for now in [77u64, 72_076, 72_077, 72_078] {
        assert_eq!(a.expired(now), b.expired(now));
    }
    assert!(!a.expired(72_076));
    assert!(a.expired(72_077));
}

#[test]
fn expired_stays_expired() {
    let d = usdelay(5, 1_000_000, 10);
    let mut seen = false;
    for now in 0..100u64 {
        let e = d.expired(now);
        assert!(!seen || e);
        seen |= e;
    }
    assert!(seen);
}
