//! Frequency-modulation parameters: the modulator's frequency and depth are
//! always derived from the current fundamental and two ratios.
//!
//! The model is generic over the value type; the caller hands in the
//! multiplication, so the same rules hold for any numeric representation.
use vstd::prelude::*;

verus! {

/// The fundamental frequency and the two ratios that the modulator follows.
#[derive(Clone, Copy, Debug)]
pub struct FmParams<T> {
    pub fundamental: T,
    /// Modulator frequency as a multiple of the fundamental.
    pub frequency_ratio: T,
    /// Modulator depth (the gain on the modulator) as a multiple of the fundamental.
    pub depth_ratio: T,
}

/// The values to apply to the modulator oscillator and the modulator-depth gain.
#[derive(Clone, Copy, Debug)]
pub struct ModulatorTargets<T> {
    pub frequency: T,
    pub depth: T,
}

/// `product` may be applied to any two values.
pub open spec fn product_defined_everywhere<T, F: Fn(T, T) -> T>(product: F) -> bool {
    forall|a: T, b: T| #[trigger] product.requires((a, b))
}

impl<T: Copy> FmParams<T> {
    pub open spec fn with_fundamental(self, f: T) -> Self {
        FmParams { fundamental: f, ..self }
    }

    pub open spec fn with_frequency_ratio(self, ratio: T) -> Self {
        FmParams { frequency_ratio: ratio, ..self }
    }

    pub open spec fn with_depth_ratio(self, ratio: T) -> Self {
        FmParams { depth_ratio: ratio, ..self }
    }

    /// `t` holds `frequency_ratio × fundamental` and `depth_ratio × fundamental`,
    /// each computed by `product` from the current state.
    pub open spec fn derived_by<F: Fn(T, T) -> T>(self, product: F, t: ModulatorTargets<T>) -> bool {
        &&& product.ensures((self.frequency_ratio, self.fundamental), t.frequency)
        &&& product.ensures((self.depth_ratio, self.fundamental), t.depth)
    }

    pub fn new(fundamental: T, frequency_ratio: T, depth_ratio: T) -> (r: Self)
        ensures
            r.fundamental == fundamental,
            r.frequency_ratio == frequency_ratio,
            r.depth_ratio == depth_ratio,
    {
        FmParams { fundamental, frequency_ratio, depth_ratio }
    }

    /// Computes the modulator targets from the current state.
    pub fn targets<F: Fn(T, T) -> T>(&self, product: F) -> (r: ModulatorTargets<T>)
        requires
            product_defined_everywhere(product),
        ensures
            self.derived_by(product, r),
    {
        let frequency = product(self.frequency_ratio, self.fundamental);
        let depth = product(self.depth_ratio, self.fundamental);
        ModulatorTargets { frequency, depth }
    }

    /// Sets the fundamental and re-derives both modulator targets from it.
    pub fn set_fundamental<F: Fn(T, T) -> T>(&mut self, f: T, product: F) -> (r: ModulatorTargets<T>)
        requires
            product_defined_everywhere(product),
        ensures
            *final(self) == old(self).with_fundamental(f),
            final(self).derived_by(product, r),
    {
        self.fundamental = f;
        self.targets(product)
    }

    /// Sets the frequency ratio and re-derives both targets against the current fundamental.
    pub fn set_frequency_ratio<F: Fn(T, T) -> T>(&mut self, ratio: T, product: F) -> (r:
        ModulatorTargets<T>)
        requires
            product_defined_everywhere(product),
        ensures
            *final(self) == old(self).with_frequency_ratio(ratio),
            final(self).derived_by(product, r),
    {
        self.frequency_ratio = ratio;
        self.targets(product)
    }

    /// Sets the depth ratio and re-derives both targets against the current fundamental.
    pub fn set_depth_ratio<F: Fn(T, T) -> T>(&mut self, ratio: T, product: F) -> (r:
        ModulatorTargets<T>)
        requires
            product_defined_everywhere(product),
        ensures
            *final(self) == old(self).with_depth_ratio(ratio),
            final(self).derived_by(product, r),
    {
        self.depth_ratio = ratio;
        self.targets(product)
    }
}

} // verus!
