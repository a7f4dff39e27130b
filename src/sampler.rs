//! The memory sampler: one 32-bit word read at a fixed cadence, each reading
//! paired with the milliseconds elapsed since sampling began and sent out as
//! an 8-byte little-endian record.

use vstd::prelude::*;
use scroll::Pwrite;

verus! {

/// The sampling period in milliseconds.
pub const PERIOD_MS: u64 = 50;

/// The four bytes of a 32-bit value, least significant first.
pub open spec fn le_u32(v: u32) -> Seq<u8> {
    seq![
        (v % 0x100) as u8,
        ((v / 0x100) % 0x100) as u8,
        ((v / 0x1_0000) % 0x100) as u8,
        ((v / 0x100_0000) % 0x100) as u8,
    ]
}

/// One reading of the sampled word.
#[derive(Clone, Copy, Debug, PartialEq, Eq, Structural)]
pub struct Sample {
    /// Milliseconds since sampling began.
    pub timestamp_ms: u64,
    /// The word read.
    pub value: u32,
}

/// The record a sample is sent as: the timestamp cut to 32 bits, then the
/// value, both little-endian.
pub open spec fn record_spec(s: Sample) -> Seq<u8> {
    le_u32(s.timestamp_ms as u32) + le_u32(s.value)
}

/// The timestamp given to a clock reading: never earlier than the last one.
pub open spec fn stamp_spec(last_ms: u64, elapsed_ms: u64) -> u64 {
    if elapsed_ms < last_ms {
        last_ms
    } else {
        elapsed_ms
    }
}

/// The timestamps a sampler whose last timestamp is `last_ms` gives to a run
/// of clock readings.
pub open spec fn stamps(last_ms: u64, readings: Seq<u64>) -> Seq<u64>
    decreases readings.len(),
{
    if readings.len() == 0 {
        Seq::empty()
    } else {
        let t = stamp_spec(last_ms, readings[0]);
        seq![t] + stamps(t, readings.drop_first())
    }
}

/// Milliseconds to sleep after a reading at `elapsed_ms`, so that the next
/// reading lands on the next point of the period's grid.
pub open spec fn wait_spec(elapsed_ms: u64) -> u64 {
    (PERIOD_MS - elapsed_ms % PERIOD_MS) as u64
}

/// Relies on scroll's Pwrite::pwrite_with for a u32 with the LE context: at an
/// offset that leaves room for four bytes it writes the value's little-endian
/// bytes there, leaves the rest untouched and returns Ok(4).
#[verifier::external_body]
fn write_u32_le(buf: &mut Vec<u8>, offset: usize, value: u32) -> (n: usize)
    requires
        offset + 4 <= old(buf)@.len(),
    ensures
        n == 4,
        final(buf)@ == old(buf)@.subrange(0, offset as int) + le_u32(value) + old(buf)@.subrange(
            offset + 4,
            old(buf)@.len() as int,
        ),
{
    let r: Result<usize, scroll::Error> = buf.as_mut_slice().pwrite_with(value, offset, scroll::LE);
    match r {
        Ok(n) => n,
        Err(_) => 0,
    }
}

impl Sample {
    /// The 8-byte record this sample is sent as.
    pub fn encode(&self) -> (r: Vec<u8>)
        ensures
            r@ == record_spec(*self),
            r@.len() == 8,
    {
        let mut buf: Vec<u8> = vec![0u8; 8];
        write_u32_le(&mut buf, 0, self.timestamp_ms as u32);
        write_u32_le(&mut buf, 4, self.value);
        assert(buf@ =~= record_spec(*self));
        buf
    }
}

/// The sampler's state between readings: the last timestamp it gave out.
#[derive(Debug)]
pub struct Sampler {
    last_ms: u64,
}

impl Sampler {
    /// The last timestamp given out, zero before the first reading.
    pub closed spec fn last_spec(&self) -> u64 {
        self.last_ms
    }

    /// A sampler that has taken no reading yet.
    pub fn new() -> (r: Sampler)
        ensures
            r.last_spec() == 0,
    {
        Sampler { last_ms: 0 }
    }

    /// The last timestamp given out.
    pub fn last_ms(&self) -> (r: u64)
        ensures
            r == self.last_spec(),
    {
        self.last_ms
    }

    /// Turns a clock reading and the word read into a sample. The timestamp
    /// is the clock reading, or the previous timestamp should the clock ever
    /// report an earlier time, so timestamps never go back.
    pub fn sample(&mut self, elapsed_ms: u64, value: u32) -> (s: Sample)
        ensures
            s.timestamp_ms == stamp_spec(old(self).last_spec(), elapsed_ms),
            s.value == value,
            final(self).last_spec() == s.timestamp_ms,
            s.timestamp_ms >= old(self).last_spec(),
    {
        if elapsed_ms > self.last_ms {
            self.last_ms = elapsed_ms;
        }
        Sample { timestamp_ms: self.last_ms, value }
    }
}

/// Whole milliseconds in a span given as seconds and the milliseconds of the
/// part below one second.
pub fn elapsed_millis(secs: u64, subsec_millis: u32) -> (r: u64)
    requires
        subsec_millis < 1000,
        secs * 1000 + subsec_millis <= u64::MAX,
    ensures
        r == secs * 1000 + subsec_millis,
{
    secs * 1000 + subsec_millis as u64
}

/// Milliseconds to wait after a reading at `elapsed_ms` before the next one:
/// up to the next multiple of the period, a whole period when on the grid.
pub fn wait_ms(elapsed_ms: u64) -> (r: u64)
    ensures
        r == wait_spec(elapsed_ms),
        1 <= r <= PERIOD_MS,
        (elapsed_ms + r) % (PERIOD_MS as int) == 0,
{
    PERIOD_MS - elapsed_ms % PERIOD_MS
}

/// Timestamps a run of clock readings in order, from a fresh sampler.
pub fn stamp_readings(readings: &Vec<u64>) -> (r: Vec<u64>)
    ensures
        r@ == stamps(0, readings@),
{
    let mut sampler = Sampler::new();
    let mut out: Vec<u64> = Vec::new();
    let mut i: usize = 0;
    assert(readings@.skip(0) =~= readings@);
    while i < readings.len()
        invariant
            i <= readings@.len(),
            stamps(0, readings@) == out@ + stamps(sampler.last_spec(), readings@.skip(i as int)),
        decreases readings@.len() - i,
    {
        let ghost before = sampler.last_spec();
        let s = sampler.sample(readings[i], 0);
        assert(readings@.skip(i as int).drop_first() =~= readings@.skip(i + 1));
        assert(stamps(before, readings@.skip(i as int)) =~= seq![s.timestamp_ms] + stamps(
            sampler.last_spec(),
            readings@.skip(i + 1),
        ));
        out.push(s.timestamp_ms);
        assert(out@ + stamps(sampler.last_spec(), readings@.skip(i + 1)) =~= (out@.drop_last()
            + seq![s.timestamp_ms]) + stamps(sampler.last_spec(), readings@.skip(i + 1)));
        i = i + 1;
    }
    assert(readings@.skip(i as int).len() == 0);
    assert(out@ + stamps(sampler.last_spec(), readings@.skip(i as int)) =~= out@);
    out
}

/// The timestamps of a sampling run never decrease, whatever the clock
/// reports, and none is earlier than the timestamp the run started from.
pub proof fn lemma_stamps_non_decreasing(last_ms: u64, readings: Seq<u64>)
    ensures
        stamps(last_ms, readings).len() == readings.len(),
        forall|i: int| 0 <= i < readings.len() ==> last_ms <= #[trigger] stamps(last_ms, readings)[i],
        forall|i: int, j: int|
            0 <= i <= j < readings.len() ==> stamps(last_ms, readings)[i] <= stamps(
                last_ms,
                readings,
            )[j],
    decreases readings.len(),
{
    if readings.len() > 0 {
        let t = stamp_spec(last_ms, readings[0]);
        let rest = readings.drop_first();
        lemma_stamps_non_decreasing(t, rest);
        let all = stamps(last_ms, readings);
        assert(all == seq![t] + stamps(t, rest));
        assert forall|i: int| 0 <= i < readings.len() implies last_ms <= #[trigger] all[i] by {
            if i > 0 {
                assert(all[i] == stamps(t, rest)[i - 1]);
            }
        }
        assert forall|i: int, j: int| 0 <= i <= j < readings.len() implies all[i] <= all[j] by {
            if i > 0 {
                assert(all[i] == stamps(t, rest)[i - 1]);
                assert(all[j] == stamps(t, rest)[j - 1]);
            } else if j > 0 {
                assert(all[j] == stamps(t, rest)[j - 1]);
            }
        }
    }
}

/// After the wait the sampler computes, the next reading falls on the next
/// point of the period's grid, strictly later and at most one period on.
pub proof fn lemma_wait_lands_on_grid(elapsed_ms: u64)
    ensures
        ((elapsed_ms + wait_spec(elapsed_ms)) as int) % (PERIOD_MS as int) == 0,
        elapsed_ms < elapsed_ms + wait_spec(elapsed_ms) <= elapsed_ms + PERIOD_MS,
{
}

/// Every record a sampler sends is exactly eight bytes long.
pub proof fn lemma_record_is_eight_bytes(s: Sample)
    ensures
        record_spec(s).len() == 8,
{
}

} // verus!
