//! Timestamps of the boundary: whole seconds and nanoseconds since the epoch.

use std::time::Duration;
use std::time::SystemTime;
use vstd::prelude::*;

verus! {

/// Nanoseconds in one second.
pub const NANOS_PER_SEC: u64 = 1_000_000_000;

/// A point in time as the boundary carries it: seconds since the epoch and
/// nanoseconds on top of them.
#[allow(non_camel_case_types)]
#[derive(Debug, Clone, Copy, PartialEq, Eq, Structural)]
pub struct topt_UnixTime {
    pub sec: u64,
    pub nsec: u64,
}

impl topt_UnixTime {
    /// The nanosecond part stays below one second.
    pub open spec fn is_normalized(self) -> bool {
        self.nsec < NANOS_PER_SEC
    }

    /// A timestamp from the whole seconds and the sub-second nanoseconds that
    /// a clock reading is made of.
    pub fn from_clock(secs: u64, subsec_nanos: u32) -> (t: topt_UnixTime)
        ensures
            t.sec == secs,
            t.nsec == subsec_nanos,
    {
        topt_UnixTime { sec: secs, nsec: subsec_nanos as u64 }
    }
}

/// A span of time since the epoch with its sub-second part below one second.
#[derive(Debug, Clone, Copy, PartialEq, Eq, Structural)]
pub struct EpochOffset {
    pub secs: u64,
    pub subsec_nanos: u32,
}

/// The nanoseconds of a timestamp that a conversion reads: its low 32 bits.
pub open spec fn nanos_read(t: topt_UnixTime) -> int {
    t.nsec as int % 0x1_0000_0000
}

/// The offset from the epoch that a timestamp stands for: its seconds, plus
/// the whole seconds among the nanoseconds read, and what is left of those
/// nanoseconds. None where the seconds no longer fit.
pub open spec fn epoch_offset(t: topt_UnixTime) -> Option<EpochOffset> {
    let secs = t.sec + nanos_read(t) / (NANOS_PER_SEC as int);
    if secs > u64::MAX {
        None
    } else {
        Some(
            EpochOffset {
                secs: secs as u64,
                subsec_nanos: (nanos_read(t) % (NANOS_PER_SEC as int)) as u32,
            },
        )
    }
}

/// Converts a timestamp of the boundary into an offset from the epoch,
/// carrying whole seconds out of the nanoseconds.
pub fn convert_unix_time(ut: &topt_UnixTime) -> (r: Option<EpochOffset>)
    ensures
        r == epoch_offset(*ut),
        r matches Some(d) ==> d.subsec_nanos < NANOS_PER_SEC,
{
    let low: u64 = ut.nsec % 0x1_0000_0000;
    let carry: u64 = low / NANOS_PER_SEC;
    let rest: u64 = low % NANOS_PER_SEC;
    match ut.sec.checked_add(carry) {
        Some(secs) => Some(EpochOffset { secs, subsec_nanos: rest as u32 }),
        None => None,
    }
}

#[verifier::external_type_specification]
#[verifier::external_body]
pub struct ExSystemTime(std::time::SystemTime);

/// `SystemTime::now`: a reading of the system clock. Nothing is claimed of it.
#[verifier::external_body]
fn clock_now() -> SystemTime {
    SystemTime::now()
}

/// `SystemTime::duration_since` against `SystemTime::UNIX_EPOCH`: the time
/// elapsed since the epoch, or nothing for a reading that lies before it.
/// Nothing is claimed of the value.
#[verifier::external_body]
fn since_epoch(reading: &SystemTime) -> Option<Duration> {
    match reading.duration_since(SystemTime::UNIX_EPOCH) {
        Ok(elapsed) => Some(elapsed),
        Err(_) => None,
    }
}

/// `Duration::as_secs`: the whole seconds of a duration. Nothing is claimed
/// of the value.
#[verifier::external_body]
fn whole_secs(elapsed: &Duration) -> u64 {
    elapsed.as_secs()
}

/// `Duration::subsec_nanos`: the part of a duration below one second, in
/// nanoseconds, which is always less than one second.
#[verifier::external_body]
fn subsec_nanos(elapsed: &Duration) -> (nanos: u32)
    ensures
        nanos < NANOS_PER_SEC,
{
    elapsed.subsec_nanos()
}

/// The present time as a timestamp of the boundary, or nothing where the
/// system clock stands before the epoch.
pub fn get_now() -> (r: Option<topt_UnixTime>)
    ensures
        r matches Some(t) ==> t.is_normalized(),
{
    let reading = clock_now();
    match since_epoch(&reading) {
        Some(elapsed) => Some(topt_UnixTime::from_clock(whole_secs(&elapsed), subsec_nanos(&elapsed))),
        None => None,
    }
}

} // verus!
