use vstd::prelude::*;

verus! {

/// The last second that chrono can represent in UTC (the end of year 262142),
/// counted from the Unix epoch.
pub const MAX_UTC_SECS: i64 = 8210266876799;

/// An instant in UTC: whole seconds since the Unix epoch and the nanoseconds
/// past that second.
#[derive(Clone, Copy, Debug, PartialEq, Eq, Structural)]
pub struct Timestamp {
    pub secs: i64,
    pub nanos: u32,
}

impl Timestamp {
    /// An instant at or after the epoch that chrono can represent, without a
    /// leap second.
    pub open spec fn wf(&self) -> bool {
        &&& 0 <= self.secs <= MAX_UTC_SECS
        &&& self.nanos < 1_000_000_000
    }
}

/// The RFC 3339 (ISO 8601) text that chrono writes for an instant.
pub uninterp spec fn rfc3339_of(secs: int, nanos: int) -> Seq<char>;

/// Relies on chrono's `Utc::now`: it reads the system clock (panicking before
/// the epoch) and builds the instant with `DateTime::from_timestamp` from the
/// seconds and the sub-second nanoseconds of a `Duration`, so the instant is
/// at or after the epoch, within chrono's range, and has fewer than a
/// billion nanoseconds.
#[verifier::external_body]
pub(crate) fn now() -> (t: Timestamp)
    ensures
        t.wf(),
{
    let n = chrono::Utc::now();
    Timestamp { secs: n.timestamp(), nanos: n.timestamp_subsec_nanos() }
}

/// Relies on chrono's `DateTime::to_rfc3339`, whose text depends on the
/// instant alone; `DateTime::from_timestamp` gives that instant for every
/// well-formed timestamp.
#[verifier::external_body]
pub(crate) fn rfc3339(t: Timestamp) -> (r: String)
    requires
        t.wf(),
    ensures
        r@ == rfc3339_of(t.secs as int, t.nanos as int),
{
    chrono::DateTime::from_timestamp(t.secs, t.nanos).unwrap().to_rfc3339()
}

/// The RFC 3339 text of the current instant, with the instant it names.
pub fn now_rfc3339() -> (r: (Timestamp, String))
    ensures
        r.0.wf(),
        r.1@ == rfc3339_of(r.0.secs as int, r.0.nanos as int),
{
    let t = now();
    let s = rfc3339(t);
    (t, s)
}

} // verus!
