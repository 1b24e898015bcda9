//! The filter engine: per-channel bounded FIFO windows for the moving average,
//! and the modulation parameters shared by every channel.
//!
//! A channel reading is carried as the bit pattern of its single-precision
//! value, which the library treats as opaque.  The engine owns everything that
//! is not numeric: which samples the window holds (the last `window_size`,
//! oldest evicted first), that state and level pass through untouched, and
//! that one elapsed-time sample per update is shared by all seven channels.

use vstd::prelude::*;
use crate::clock::{now_millis, MAX_CLOCK_MS};

verus! {

/// Bit pattern (single precision) of the default modulation amplitude, 0.15.
pub const DEFAULT_SINE_AMPLITUDE_BITS: u32 = 0x3E19999A;

/// Bit pattern (single precision) of the default modulation frequency, 0.5 Hz.
pub const DEFAULT_SINE_FREQUENCY_BITS: u32 = 0x3F000000;

/// Default modulation amplitude (15 percent), as a bit pattern.
pub fn default_sine_amplitude() -> (r: u32)
    ensures
        r == DEFAULT_SINE_AMPLITUDE_BITS,
{
    DEFAULT_SINE_AMPLITUDE_BITS
}

/// Default modulation frequency (one cycle per two seconds), as a bit pattern.
pub fn default_sine_frequency() -> (r: u32)
    ensures
        r == DEFAULT_SINE_FREQUENCY_BITS,
{
    DEFAULT_SINE_FREQUENCY_BITS
}

/// Modulation is enabled unless the configuration turns it off.
pub fn default_sine_enabled() -> (r: bool)
    ensures
        r == true,
{
    true
}

/// Filter configuration, immutable after load.  The amplitude and frequency
/// are bit patterns of single-precision values.
#[derive(Clone, Copy, Debug, PartialEq, Eq, Structural)]
pub struct FilterConfig {
    pub window_size: usize,
    pub sine_amplitude: u32,
    pub sine_frequency: u32,
    pub sine_enabled: bool,
}

/// One raw reading parsed from an instrument data line: seven channel values
/// (bit patterns) plus the integer state and level.
#[derive(Clone, Copy, Debug, PartialEq, Eq, Structural)]
pub struct UnifiedSensorRaw {
    pub no2: u32,
    pub eth: u32,
    pub voc: u32,
    pub co: u32,
    pub com: u32,
    pub ethm: u32,
    pub vocm: u32,
    pub state: i32,
    pub level: i32,
}

/// A reading after smoothing and modulation; state and level are copied
/// through from the raw reading unchanged.
#[derive(Clone, Copy, Debug, PartialEq, Eq, Structural)]
pub struct UnifiedSensorFiltered {
    pub no2: u32,
    pub eth: u32,
    pub voc: u32,
    pub co: u32,
    pub com: u32,
    pub ethm: u32,
    pub vocm: u32,
    pub state: i32,
    pub level: i32,
}

/// Milliseconds elapsed from `start` to `now`; a clock that stepped backwards
/// reads as zero.
pub open spec fn elapsed_of(now: int, start: int) -> int {
    if now >= start {
        now - start
    } else {
        0
    }
}

/// The window after one new sample arrives: the sample is appended, and the
/// oldest entry leaves once the window is full (FIFO of size at most `bound`).
pub open spec fn slide(w: Seq<u32>, v: u32, bound: int) -> Seq<u32> {
    if w.len() < bound {
        w.push(v)
    } else {
        w.push(v).drop_first()
    }
}

/// The window after a whole run of samples arrives, oldest first.
pub open spec fn fold_slide(w: Seq<u32>, raws: Seq<u32>, bound: int) -> Seq<u32>
    decreases raws.len(),
{
    if raws.len() == 0 {
        w
    } else {
        fold_slide(slide(w, raws[0], bound), raws.drop_first(), bound)
    }
}

/// Appends a sample to one channel window and evicts the oldest entry if the
/// window would exceed its bound.
pub fn push_sample(values: &mut Vec<u32>, new_val: u32, bound: usize)
    requires
        bound >= 1,
        old(values)@.len() <= bound,
    ensures
        final(values)@ == slide(old(values)@, new_val, bound as int),
        1 <= final(values)@.len() <= bound,
{
    values.push(new_val);
    if values.len() > bound {
        values.remove(0);
        proof {
            assert(values@ =~= old(values)@.push(new_val).drop_first());
        }
    }
}

/// Per-connection filter state: one bounded window per channel, the modulation
/// parameters, and the creation time that fixes the modulation phase.
#[derive(Clone, Debug)]
pub struct SensorFilters {
    pub window_size: usize,
    pub no2: Vec<u32>,
    pub eth: Vec<u32>,
    pub voc: Vec<u32>,
    pub co: Vec<u32>,
    pub com: Vec<u32>,
    pub ethm: Vec<u32>,
    pub vocm: Vec<u32>,
    pub sine_amplitude: u32,
    pub sine_frequency: u32,
    pub sine_enabled: bool,
    pub start_ms: i64,
}

impl SensorFilters {
    /// Well-formedness: the window bound is positive, every window respects
    /// it, and the creation time is a representable clock value.
    pub open spec fn wf(&self) -> bool {
        &&& self.window_size >= 1
        &&& self.no2@.len() <= self.window_size
        &&& self.eth@.len() <= self.window_size
        &&& self.voc@.len() <= self.window_size
        &&& self.co@.len() <= self.window_size
        &&& self.com@.len() <= self.window_size
        &&& self.ethm@.len() <= self.window_size
        &&& self.vocm@.len() <= self.window_size
        &&& -MAX_CLOCK_MS <= self.start_ms <= MAX_CLOCK_MS
    }

    /// Every window advanced by the raw reading's channel value; the bound,
    /// the modulation parameters and the creation time are untouched.
    pub open spec fn windows_slid(pre: Self, post: Self, raw: UnifiedSensorRaw) -> bool {
        let b = pre.window_size as int;
        &&& post.no2@ == slide(pre.no2@, raw.no2, b)
        &&& post.eth@ == slide(pre.eth@, raw.eth, b)
        &&& post.voc@ == slide(pre.voc@, raw.voc, b)
        &&& post.co@ == slide(pre.co@, raw.co, b)
        &&& post.com@ == slide(pre.com@, raw.com, b)
        &&& post.ethm@ == slide(pre.ethm@, raw.ethm, b)
        &&& post.vocm@ == slide(pre.vocm@, raw.vocm, b)
        &&& post.window_size == pre.window_size
        &&& post.sine_amplitude == pre.sine_amplitude
        &&& post.sine_frequency == pre.sine_frequency
        &&& post.sine_enabled == pre.sine_enabled
        &&& post.start_ms == pre.start_ms
    }

    /// Fresh filter state for one instrument connection.  A window size of
    /// zero is treated as one, so the average is never taken over an empty
    /// window.
    pub fn new(config: &FilterConfig) -> (r: Self)
        ensures
            r.wf(),
            r.window_size == if config.window_size == 0 { 1int } else {
                config.window_size as int
            },
            r.no2@.len() == 0,
            r.eth@.len() == 0,
            r.voc@.len() == 0,
            r.co@.len() == 0,
            r.com@.len() == 0,
            r.ethm@.len() == 0,
            r.vocm@.len() == 0,
            r.sine_amplitude == config.sine_amplitude,
            r.sine_frequency == config.sine_frequency,
            r.sine_enabled == config.sine_enabled,
    {
        let window_size = if config.window_size == 0 { 1 } else { config.window_size };
        SensorFilters {
            window_size,
            no2: Vec::new(),
            eth: Vec::new(),
            voc: Vec::new(),
            co: Vec::new(),
            com: Vec::new(),
            ethm: Vec::new(),
            vocm: Vec::new(),
            sine_amplitude: config.sine_amplitude,
            sine_frequency: config.sine_frequency,
            sine_enabled: config.sine_enabled,
            start_ms: now_millis(),
        }
    }

    /// Feeds one raw reading into every channel window and returns the single
    /// elapsed-time sample, in milliseconds since this filter was created,
    /// that the caller must use for the sine modulation of all seven channels
    /// of this reading.  A clock that stepped backwards reads as zero elapsed
    /// time.
    pub fn update(&mut self, raw: &UnifiedSensorRaw) -> (elapsed_ms: i64)
        requires
            old(self).wf(),
        ensures
            final(self).wf(),
            Self::windows_slid(*old(self), *final(self), *raw),
            0 <= elapsed_ms <= 2 * MAX_CLOCK_MS,
            exists|now: int|
                -MAX_CLOCK_MS <= now <= MAX_CLOCK_MS && elapsed_ms == #[trigger] elapsed_of(
                    now,
                    old(self).start_ms as int,
                ),
    {
        let now = now_millis();
        let elapsed_ms: i64 = if now >= self.start_ms {
            now - self.start_ms
        } else {
            0
        };
        proof {
            assert(elapsed_ms == elapsed_of(now as int, old(self).start_ms as int));
        }
        let bound = self.window_size;
        push_sample(&mut self.no2, raw.no2, bound);
        push_sample(&mut self.eth, raw.eth, bound);
        push_sample(&mut self.voc, raw.voc, bound);
        push_sample(&mut self.co, raw.co, bound);
        push_sample(&mut self.com, raw.com, bound);
        push_sample(&mut self.ethm, raw.ethm, bound);
        push_sample(&mut self.vocm, raw.vocm, bound);
        elapsed_ms
    }
}

/// Assembles the filtered reading from the seven modulated channel averages;
/// state and level are copied through from the raw reading without
/// modification.
pub fn make_filtered(
    raw: &UnifiedSensorRaw,
    no2: u32,
    eth: u32,
    voc: u32,
    co: u32,
    com: u32,
    ethm: u32,
    vocm: u32,
) -> (r: UnifiedSensorFiltered)
    ensures
        r.no2 == no2,
        r.eth == eth,
        r.voc == voc,
        r.co == co,
        r.com == com,
        r.ethm == ethm,
        r.vocm == vocm,
        r.state == raw.state,
        r.level == raw.level,
{
    UnifiedSensorFiltered {
        no2,
        eth,
        voc,
        co,
        com,
        ethm,
        vocm,
        state: raw.state,
        level: raw.level,
    }
}

proof fn lemma_fold_slide_suffix(w: Seq<u32>, raws: Seq<u32>, bound: int)
    requires
        bound >= 1,
        w.len() <= bound,
    ensures
        fold_slide(w, raws, bound) =~= (w + raws).skip(
            if w.len() + raws.len() > bound {
                w.len() + raws.len() - bound
            } else {
                0
            },
        ),
    decreases raws.len(),
{
    if raws.len() == 0 {
        assert(w + raws =~= w);
    } else {
        let r0 = raws[0];
        let rest = raws.drop_first();
        let w1 = slide(w, r0, bound);
        lemma_fold_slide_suffix(w1, rest, bound);
        if w.len() < bound {
            assert(w1 + rest =~= w + raws);
        } else {
            assert(w1 + rest =~= (w + raws).skip(1));
            if rest.len() > 0 {
                assert((w + raws).skip(1).skip(w1.len() + rest.len() - bound) =~= (w
                    + raws).skip(w.len() + raws.len() - bound));
            }
        }
    }
}

/// Law: starting from an empty window, after any run of raw samples the
/// window holds exactly the most recent min(N, W) of them, in arrival order;
/// the moving average of the k-th update is therefore taken over the last
/// min(k, W) samples of that channel alone.
pub proof fn lemma_window_holds_recent_suffix(raws: Seq<u32>, bound: int)
    requires
        bound >= 1,
    ensures
        fold_slide(Seq::empty(), raws, bound) =~= raws.skip(
            if raws.len() > bound {
                raws.len() - bound
            } else {
                0
            },
        ),
{
    lemma_fold_slide_suffix(Seq::empty(), raws, bound);
    assert(Seq::<u32>::empty() + raws =~= raws);
}

} // verus!
