use vstd::prelude::*;

verus! {

/// Payload data of a telecommand or telemetry packet.
pub trait TmTcData {
    /// The name under which the payload's type travels.
    spec fn payload_name(&self) -> Seq<char>;

    /// The name of the payload's type, as it is sent.
    fn type_id(&self) -> (r: String)
        ensures
            r@ == self.payload_name(),
    ;
}

/// A point in time in UTC: whole seconds since the Unix epoch and the
/// nanoseconds past that second (from 10^9 up only within a leap second).
#[derive(Clone, Copy, Debug, PartialEq, Eq, Structural)]
pub struct UtcTimestamp {
    pub seconds: i64,
    pub nanoseconds: u32,
}

/// Relies on chrono::Utc::now for the current time, read back through
/// DateTime::timestamp and DateTime::timestamp_subsec_nanos; chrono keeps the
/// sub-second part below 2 * 10^9, the upper half being a leap second.
#[verifier::external_body]
fn utc_now() -> (r: UtcTimestamp)
    ensures
        r.nanoseconds < 2_000_000_000,
{
    let now = chrono::Utc::now();
    UtcTimestamp { seconds: now.timestamp(), nanoseconds: now.timestamp_subsec_nanos() }
}

/// A heartbeat telecommand, carrying the time at which it was made.
pub struct TcHeartbeat {
    pub current_time_utc: UtcTimestamp,
}

impl TcHeartbeat {
    /// A heartbeat stamped with the current time.
    pub fn new() -> (r: TcHeartbeat)
        ensures
            r.current_time_utc.nanoseconds < 2_000_000_000,
    {
        TcHeartbeat { current_time_utc: utc_now() }
    }
}

impl TmTcData for TcHeartbeat {
    open spec fn payload_name(&self) -> Seq<char> {
        "TcHeartbeat"@
    }

    fn type_id(&self) -> (r: String) {
        "TcHeartbeat".to_owned()
    }
}

/// A telecommand that asks the rover to disconnect from the control station.
pub struct TcDisconnect {}

impl TcDisconnect {
    pub fn new() -> (r: TcDisconnect) {
        TcDisconnect {}
    }
}

impl TmTcData for TcDisconnect {
    open spec fn payload_name(&self) -> Seq<char> {
        "TcDisconnect"@
    }

    fn type_id(&self) -> (r: String) {
        "TcDisconnect".to_owned()
    }
}

} // verus!
