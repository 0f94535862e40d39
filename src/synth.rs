//! The synthesiser's own state: which shape the primary oscillator plays, the
//! modulation parameters, and whether the host context has been released.
//!
//! Each operation updates the state and returns what the host must apply to
//! its nodes; the host performs the writes.
use vstd::prelude::*;
use crate::catalog::{resolve_wave_type, wave_type_named, UnknownWaveType, WaveType};
use crate::fm::{product_defined_everywhere, FmParams, ModulatorTargets};
use crate::gain::{saturate, saturated, comparison_defined_everywhere};

verus! {

/// State of one FM synthesiser, over values of type `T`.
#[derive(Clone, Copy, Debug)]
pub struct FmOsc<T> {
    pub wave_type: WaveType,
    pub params: FmParams<T>,
    /// Gain of the primary oscillator, as last saturated to `[silent, full]`.
    pub output_gain: T,
    /// Overall gain before the host output, as last saturated to `[silent, full]`.
    pub master_gain: T,
    /// The lowest gain: no sound.
    pub silent: T,
    /// The highest gain.
    pub full: T,
    /// The host context has been released.
    pub closed: bool,
}

impl<T: Copy> FmOsc<T> {
    pub open spec fn with_wave_type(self, w: WaveType) -> Self {
        FmOsc { wave_type: w, ..self }
    }

    pub open spec fn with_params(self, p: FmParams<T>) -> Self {
        FmOsc { params: p, ..self }
    }

    /// The state after `set_primary_frequency(f)`.
    pub open spec fn after_primary_frequency(self, f: T) -> Self {
        self.with_params(self.params.with_fundamental(f))
    }

    /// The state after `set_fm_amount(amount)`.
    pub open spec fn after_fm_amount(self, amount: T) -> Self {
        self.with_params(self.params.with_depth_ratio(amount))
    }

    /// The state after `set_fm_frequency(ratio)`.
    pub open spec fn after_fm_frequency(self, ratio: T) -> Self {
        self.with_params(self.params.with_frequency_ratio(ratio))
    }

    pub open spec fn with_output_gain(self, g: T) -> Self {
        FmOsc { output_gain: g, ..self }
    }

    pub open spec fn with_master_gain(self, g: T) -> Self {
        FmOsc { master_gain: g, ..self }
    }

    pub open spec fn released(self) -> Self {
        FmOsc { closed: true, ..self }
    }

    /// A freshly built synthesiser: sine shape at `fundamental`, no
    /// modulation (both ratios `zero`), both gains muted at `zero`, gains
    /// bounded by `[zero, one]`, host context held.
    pub fn new(fundamental: T, zero: T, one: T) -> (r: Self)
        ensures
            r.wave_type == WaveType::Sine,
            r.params == (FmParams { fundamental, frequency_ratio: zero, depth_ratio: zero }),
            r.output_gain == zero,
            r.master_gain == zero,
            r.silent == zero,
            r.full == one,
            !r.closed,
    {
        FmOsc {
            wave_type: WaveType::Sine,
            params: FmParams::new(fundamental, zero, zero),
            output_gain: zero,
            master_gain: zero,
            silent: zero,
            full: one,
            closed: false,
        }
    }

    /// Selects the primary oscillator's shape by name. An unknown name leaves
    /// the state as it was and is reported.
    pub fn set_wave_type(&mut self, wave: &str) -> (r: Result<WaveType, UnknownWaveType>)
        ensures
            match wave_type_named(wave@) {
                Some(w) => r == Ok::<WaveType, UnknownWaveType>(w) && *final(self) == old(
                    self,
                ).with_wave_type(w),
                None => r == Err::<WaveType, UnknownWaveType>(UnknownWaveType) && (*final(self)
                    == *old(self)),
            },
    {
        let r = resolve_wave_type(wave);
        if let Ok(w) = r {
            self.wave_type = w;
        }
        r
    }

    /// Sets the fundamental; both modulator targets are derived again from it.
    pub fn set_primary_frequency<F: Fn(T, T) -> T>(&mut self, freq: T, product: F) -> (r:
        ModulatorTargets<T>)
        requires
            product_defined_everywhere(product),
        ensures
            *final(self) == old(self).after_primary_frequency(freq),
            final(self).params.derived_by(product, r),
    {
        self.params.set_fundamental(freq, product)
    }

    /// Sets the depth ratio; the targets are derived against the current fundamental.
    pub fn set_fm_amount<F: Fn(T, T) -> T>(&mut self, amount: T, product: F) -> (r:
        ModulatorTargets<T>)
        requires
            product_defined_everywhere(product),
        ensures
            *final(self) == old(self).after_fm_amount(amount),
            final(self).params.derived_by(product, r),
    {
        self.params.set_depth_ratio(amount, product)
    }

    /// Sets the frequency ratio; the targets are derived against the current fundamental.
    pub fn set_fm_frequency<F: Fn(T, T) -> T>(&mut self, ratio: T, product: F) -> (r:
        ModulatorTargets<T>)
        requires
            product_defined_everywhere(product),
        ensures
            *final(self) == old(self).after_fm_frequency(ratio),
            final(self).params.derived_by(product, r),
    {
        self.params.set_frequency_ratio(ratio, product)
    }

    /// Sets the primary oscillator's gain, saturated to `[silent, full]`;
    /// returns the value stored.
    pub fn set_osc1_gain<G: Fn(T, T) -> bool>(&mut self, gain: T, greater: G) -> (r: T)
        requires
            comparison_defined_everywhere(greater),
        ensures
            saturated(greater, old(self).silent, old(self).full, gain, r),
            *final(self) == old(self).with_output_gain(r),
    {
        let g = saturate(gain, self.silent, self.full, greater);
        self.output_gain = g;
        g
    }

    /// Sets the overall gain, saturated to `[silent, full]`; returns the value stored.
    pub fn set_ms_gain<G: Fn(T, T) -> bool>(&mut self, gain: T, greater: G) -> (r: T)
        requires
            comparison_defined_everywhere(greater),
        ensures
            saturated(greater, old(self).silent, old(self).full, gain, r),
            *final(self) == old(self).with_master_gain(r),
    {
        let g = saturate(gain, self.silent, self.full, greater);
        self.master_gain = g;
        g
    }

    /// Marks the host context released. Returns whether the caller must
    /// release it now: only on the first call.
    pub fn teardown(&mut self) -> (r: bool)
        ensures
            r == !old(self).closed,
            *final(self) == old(self).released(),
    {
        let first = !self.closed;
        self.closed = true;
        first
    }
}

/// Whatever state the synthesiser was in, after `set_primary_frequency(f)`,
/// `set_fm_amount(dr)` and then `set_fm_frequency(fr)`, the modulator targets
/// are exactly `fr × f` and `dr × f`: the ratios act on the current
/// fundamental, not on one that was in effect when they were first set.
pub proof fn lemma_targets_follow_current_fundamental<T: Copy, F: Fn(T, T) -> T>(
    s: FmOsc<T>,
    f: T,
    dr: T,
    fr: T,
    product: F,
    t: ModulatorTargets<T>,
)
    ensures
        s.after_primary_frequency(f).after_fm_amount(dr).after_fm_frequency(fr).params.derived_by(
            product,
            t,
        ) <==> (product.ensures((fr, f), t.frequency) && product.ensures((dr, f), t.depth)),
{
}

/// Tearing down twice is safe: the second teardown finds the context already
/// released, asks for no second release, and changes nothing.
pub proof fn lemma_teardown_idempotent<T: Copy>(s: FmOsc<T>)
    ensures
        s.released().closed,
        s.released().released() == s.released(),
{
}

/// A zeroed buffer of `bin_count` bytes, for one snapshot of the analyser's
/// time-domain samples.
pub fn readback_buffer(bin_count: u32) -> (r: Vec<u8>)
    ensures
        r@.len() == bin_count,
        forall|i: int| 0 <= i < r@.len() ==> r@[i] == 0,
{
    let n = bin_count as usize;
    let mut r: Vec<u8> = Vec::with_capacity(n);
    while r.len() < n
        invariant
            r@.len() <= n,
            n == bin_count,
            forall|i: int| 0 <= i < r@.len() ==> r@[i] == 0,
        decreases n - r@.len(),
    {
        r.push(0u8);
    }
    r
}

} // verus!
