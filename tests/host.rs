use autonomy_control::frame_clock::FrameClock;
use autonomy_control::telecommand::{TcDisconnect, TcHeartbeat, TmTcData};

#[test]
fn clock_starts_at_zero_and_advances() {
    let mut clock = FrameClock::new();
    assert_eq!(clock.frame_counter, 0);
    assert_eq!(clock.advance(), 1);
    assert_eq!(clock.advance(), 2);
    assert_eq!(clock.frame_counter, 2);
}

#[test]
fn clock_stays_at_largest_value() {
    let mut clock = FrameClock { frame_counter: u64::MAX - 1 };
    assert_eq!(clock.advance(), u64::MAX);
    assert_eq!(clock.advance(), u64::MAX);
}

#[test]
fn disconnect_type_id() {
    assert_eq!(TcDisconnect::new().type_id(), "TcDisconnect");
}

#[test]
fn heartbeat_carries_current_time() {
    let hb = TcHeartbeat::new();
    assert_eq!(hb.type_id(), "TcHeartbeat");
    // later than 2020-01-01T00:00:00Z
    assert!(hb.current_time_utc.seconds > 1_577_836_800);
    assert!(hb.current_time_utc.nanoseconds < 2_000_000_000);
}
