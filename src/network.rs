use vstd::prelude::*;

verus! {

/// What the platform reports for one network interface since its last refresh.
#[derive(Clone, Copy, Debug, PartialEq, Eq, Structural)]
pub struct InterfaceReading {
    pub received: u64,
    pub transmitted: u64,
    pub packets_received: u64,
    pub packets_transmitted: u64,
    pub errors_received: u64,
    pub errors_transmitted: u64,
}

/// The sums over every interface; a sum past `u64::MAX` stays at `u64::MAX`.
#[derive(Clone, Copy, Debug, PartialEq, Eq, Structural)]
pub struct NetworkTotals {
    pub received: u64,
    pub transmitted: u64,
    pub packets_received: u64,
    pub packets_transmitted: u64,
    pub errors_received: u64,
    pub errors_transmitted: u64,
}

/// Latency samples are clamped to this range, in microseconds (1 ms to 10 s).
pub const MIN_LATENCY_MICROS: u64 = 1_000;

pub const MAX_LATENCY_MICROS: u64 = 10_000_000;

pub open spec fn sum_of(s: Seq<InterfaceReading>, f: spec_fn(InterfaceReading) -> u64) -> int
    decreases s.len(),
{
    if s.len() == 0 {
        0
    } else {
        sum_of(s.drop_last(), f) + f(s.last())
    }
}

pub open spec fn capped(x: int) -> int {
    if x > u64::MAX {
        u64::MAX as int
    } else {
        x
    }
}

pub open spec fn totals_of(t: NetworkTotals, s: Seq<InterfaceReading>) -> bool {
    &&& t.received == capped(sum_of(s, |r: InterfaceReading| r.received))
    &&& t.transmitted == capped(sum_of(s, |r: InterfaceReading| r.transmitted))
    &&& t.packets_received == capped(sum_of(s, |r: InterfaceReading| r.packets_received))
    &&& t.packets_transmitted == capped(sum_of(s, |r: InterfaceReading| r.packets_transmitted))
    &&& t.errors_received == capped(sum_of(s, |r: InterfaceReading| r.errors_received))
    &&& t.errors_transmitted == capped(sum_of(s, |r: InterfaceReading| r.errors_transmitted))
}

proof fn lemma_sum_step(s: Seq<InterfaceReading>, i: int, f: spec_fn(InterfaceReading) -> u64)
    requires
        0 <= i < s.len(),
    ensures
        sum_of(s.take(i + 1), f) == sum_of(s.take(i), f) + f(s[i]),
        sum_of(s.take(i), f) >= 0,
{
    assert(s.take(i + 1).drop_last() =~= s.take(i));
    lemma_sum_nonneg(s.take(i), f);
}

proof fn lemma_sum_nonneg(s: Seq<InterfaceReading>, f: spec_fn(InterfaceReading) -> u64)
    ensures
        sum_of(s, f) >= 0,
    decreases s.len(),
{
    if s.len() > 0 {
        lemma_sum_nonneg(s.drop_last(), f);
    }
}

/// The totals over every interface, each sum saturating at `u64::MAX`.
pub fn aggregate(readings: &Vec<InterfaceReading>) -> (r: NetworkTotals)
    ensures
        totals_of(r, readings@),
{
    let mut t = NetworkTotals {
        received: 0,
        transmitted: 0,
        packets_received: 0,
        packets_transmitted: 0,
        errors_received: 0,
        errors_transmitted: 0,
    };
    let mut i: usize = 0;
    proof {
        assert(readings@.take(0) =~= Seq::<InterfaceReading>::empty());
    }
    while i < readings.len()
        invariant
            i <= readings.len(),
            totals_of(t, readings@.take(i as int)),
        decreases readings.len() - i,
    {
        let d = readings[i];
        proof {
            lemma_sum_step(readings@, i as int, |r: InterfaceReading| r.received);
            lemma_sum_step(readings@, i as int, |r: InterfaceReading| r.transmitted);
            lemma_sum_step(readings@, i as int, |r: InterfaceReading| r.packets_received);
            lemma_sum_step(readings@, i as int, |r: InterfaceReading| r.packets_transmitted);
            lemma_sum_step(readings@, i as int, |r: InterfaceReading| r.errors_received);
            lemma_sum_step(readings@, i as int, |r: InterfaceReading| r.errors_transmitted);
        }
        t.received = t.received.saturating_add(d.received);
        t.transmitted = t.transmitted.saturating_add(d.transmitted);
        t.packets_received = t.packets_received.saturating_add(d.packets_received);
        t.packets_transmitted = t.packets_transmitted.saturating_add(d.packets_transmitted);
        t.errors_received = t.errors_received.saturating_add(d.errors_received);
        t.errors_transmitted = t.errors_transmitted.saturating_add(d.errors_transmitted);
        i += 1;
    }
    proof {
        assert(readings@.take(readings@.len() as int) =~= readings@);
    }
    t
}

/// The latency sample drawn from the bytes received: one microsecond per byte,
/// clamped to the range `MIN_LATENCY_MICROS ..= MAX_LATENCY_MICROS`.
pub fn latency_micros(total_received: u64) -> (r: u64)
    ensures
        total_received < MIN_LATENCY_MICROS ==> r == MIN_LATENCY_MICROS,
        total_received > MAX_LATENCY_MICROS ==> r == MAX_LATENCY_MICROS,
        MIN_LATENCY_MICROS <= total_received <= MAX_LATENCY_MICROS ==> r == total_received,
{
    if total_received < MIN_LATENCY_MICROS {
        MIN_LATENCY_MICROS
    } else if total_received > MAX_LATENCY_MICROS {
        MAX_LATENCY_MICROS
    } else {
        total_received
    }
}

} // verus!
