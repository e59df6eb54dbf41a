use vstd::prelude::*;

use core::time::Duration;
use std::sync::atomic::{AtomicU16, Ordering};
use std::time::Instant;

verus! {

#[verifier::external_type_specification]
#[verifier::external_body]
pub struct ExInstant(Instant);

/// An identifier made of a millisecond count and a counter: the low 16 bits
/// hold the counter, the high 48 bits the low 48 bits of the millisecond count.
pub open spec fn snowflake_id(millis: u64, inc: u16) -> u64 {
    (millis << 16u64) | (inc as u64)
}

/// Produces process-local identifiers: milliseconds since the producer was
/// made, beside a counter that wraps silently after 65536 identifiers.
pub struct SnowflakeProducer {
    epoch: Instant,
    increment: AtomicU16,
}

/// Relies on `Instant::now`: the current instant of the monotonic clock.
#[verifier::external_body]
fn now() -> (r: Instant) {
    Instant::now()
}

/// Relies on `Instant::elapsed`: the time since `epoch`.
#[verifier::external_body]
fn elapsed(epoch: &Instant) -> (r: Duration) {
    epoch.elapsed()
}

/// Relies on `Duration::as_millis`: the whole milliseconds in `d`.
#[verifier::external_body]
fn whole_millis(d: &Duration) -> (r: u128) {
    d.as_millis()
}

impl SnowflakeProducer {
    /// A producer whose clock starts now and whose counter starts at zero.
    pub fn new() -> (r: SnowflakeProducer) {
        SnowflakeProducer { epoch: now(), increment: AtomicU16::new(0) }
    }

    /// The identifier for a millisecond count and a counter value.
    pub fn compose(millis: u64, inc: u16) -> (r: u64)
        ensures
            r == snowflake_id(millis, inc),
    {
        (millis << 16u64) | (inc as u64)
    }

    /// A fresh identifier: the counter is advanced atomically, and the
    /// milliseconds elapsed since the producer was made are read from the
    /// clock; both depend on the moment and on other callers.
    pub fn produce(&self) -> (r: u64) {
        let inc = self.increment.fetch_add(1, Ordering::Acquire);
        let dur = elapsed(&self.epoch);
        let millis = whole_millis(&dur) as u64;
        Self::compose(millis, inc)
    }
}

impl Default for SnowflakeProducer {
    fn default() -> (r: SnowflakeProducer) {
        SnowflakeProducer::new()
    }
}

/// Two identifiers are equal exactly when their counters are equal and their
/// millisecond counts agree in the low 48 bits: identifiers made in distinct
/// milliseconds, or in one millisecond with distinct counter values, differ,
/// and only a counter that wrapped within one millisecond repeats one.
pub proof fn lemma_snowflake_distinct(m1: u64, i1: u16, m2: u64, i2: u16)
    ensures
        (snowflake_id(m1, i1) == snowflake_id(m2, i2)) <==> (i1 == i2 && m1
            & 0xffff_ffff_ffffu64 == m2 & 0xffff_ffff_ffffu64),
{
    let a = i1 as u64;
    let b = i2 as u64;
    assert(a <= 0xffffu64 && b <= 0xffffu64);
    assert(((m1 << 16u64) | a) == ((m2 << 16u64) | b) <==> (a == b && m1 & 0xffff_ffff_ffffu64
        == m2 & 0xffff_ffff_ffffu64)) by (bit_vector)
        requires
            a <= 0xffffu64,
            b <= 0xffffu64,
    ;
}

/// The counter's value stands in the low 16 bits of an identifier and the
/// millisecond count, cut to 48 bits, above them.
pub proof fn lemma_snowflake_parts(m: u64, i: u16)
    ensures
        snowflake_id(m, i) & 0xffffu64 == i as u64,
        snowflake_id(m, i) >> 16u64 == m & 0xffff_ffff_ffffu64,
{
    let a = i as u64;
    assert(a <= 0xffffu64);
    assert(((m << 16u64) | a) & 0xffffu64 == a && ((m << 16u64) | a) >> 16u64 == m
        & 0xffff_ffff_ffffu64) by (bit_vector)
        requires
            a <= 0xffffu64,
    ;
}

} // verus!
