use vstd::prelude::*;

verus! {

/// A point in time: whole seconds since the Unix epoch and the nanoseconds
/// past that second.
#[derive(Clone, Copy, Debug, PartialEq, Eq, Structural)]
pub struct Timestamp {
    pub secs: i64,
    pub nanos: u32,
}

impl Timestamp {
    pub open spec fn wf(&self) -> bool {
        self.nanos < 1_000_000_000
    }
}

/// The current time.
///
/// Relies on chrono::Utc::now, which reads the system clock as a duration
/// since the Unix epoch (sub-second nanoseconds below one second), and on
/// `timestamp` and `timestamp_subsec_nanos` to read it back.
#[verifier::external_body]
pub fn now() -> (r: Timestamp)
    ensures
        r.wf(),
        r.secs >= 0,
{
    let t = chrono::Utc::now();
    Timestamp { secs: t.timestamp(), nanos: t.timestamp_subsec_nanos() }
}

} // verus!
