//! A computed spectrum, held as index-aligned real and imaginary parts.
use vstd::prelude::*;
use rustfft::num_complex::Complex;

verus! {

/// Declares num_complex's `Complex` (re-exported by rustfft), the type of the
/// transform's output bins. Verus reads its two public fields `re` and `im`.
#[verifier::external_type_specification]
#[verifier::reject_recursive_types(T)]
pub struct ExComplex<T>(Complex<T>);

/// Why a spectrum could not be formed.
#[derive(Clone, Copy, Debug, PartialEq, Eq, Structural)]
pub enum TransformError {
    /// The sample window was empty.
    InvalidInput,
}

/// Real and imaginary coefficients of bins `0..N`, for `N > 0`.
pub struct SpectrumPair<T> {
    re: Vec<T>,
    im: Vec<T>,
}

impl<T> SpectrumPair<T> {
    #[verifier::type_invariant]
    spec fn inv(&self) -> bool {
        &&& self.re@.len() == self.im@.len()
        &&& self.re@.len() > 0
    }

    pub closed spec fn real_view(&self) -> Seq<T> {
        self.re@
    }

    pub closed spec fn imag_view(&self) -> Seq<T> {
        self.im@
    }

    /// The real parts, bin by bin.
    pub fn real_parts(&self) -> (r: &Vec<T>)
        ensures
            r@ == self.real_view(),
            r@.len() == self.imag_view().len(),
            r@.len() > 0,
    {
        proof {
            use_type_invariant(self);
        }
        &self.re
    }

    /// The imaginary parts, bin by bin.
    pub fn imag_parts(&self) -> (r: &Vec<T>)
        ensures
            r@ == self.imag_view(),
            r@.len() == self.real_view().len(),
            r@.len() > 0,
    {
        proof {
            use_type_invariant(self);
        }
        &self.im
    }

    /// The number of bins.
    pub fn len(&self) -> (r: usize)
        ensures
            r == self.real_view().len(),
            r == self.imag_view().len(),
            r > 0,
    {
        proof {
            use_type_invariant(self);
        }
        self.re.len()
    }

    /// Takes the parts apart: `(real, imag)`.
    pub fn into_parts(self) -> (r: (Vec<T>, Vec<T>))
        ensures
            r.0@ == self.real_view(),
            r.1@ == self.imag_view(),
            r.0@.len() == r.1@.len(),
            r.0@.len() > 0,
    {
        proof {
            use_type_invariant(&self);
        }
        (self.re, self.im)
    }
}

impl<T: Copy> SpectrumPair<T> {
    /// Splits transform bins into real and imaginary parts; an empty set of
    /// bins (from an empty sample window) is rejected.
    pub fn from_bins(bins: &Vec<Complex<T>>) -> (r: Result<SpectrumPair<T>, TransformError>)
        ensures
            match r {
                Ok(p) => {
                    &&& bins@.len() > 0
                    &&& p.real_view().len() == bins@.len()
                    &&& p.imag_view().len() == bins@.len()
                    &&& forall|k: int|
                        0 <= k < bins@.len() ==> p.real_view()[k] == #[trigger] bins@[k].re
                            && p.imag_view()[k] == bins@[k].im
                },
                Err(e) => bins@.len() == 0 && e == TransformError::InvalidInput,
            },
    {
        if bins.len() == 0 {
            return Err(TransformError::InvalidInput);
        }
        let mut re: Vec<T> = Vec::with_capacity(bins.len());
        let mut im: Vec<T> = Vec::with_capacity(bins.len());
        let mut k: usize = 0;
        while k < bins.len()
            invariant
                k <= bins@.len(),
                re@.len() == k,
                im@.len() == k,
                forall|j: int|
                    0 <= j < k ==> re@[j] == #[trigger] bins@[j].re && im@[j] == bins@[j].im,
            decreases bins@.len() - k,
        {
            re.push(bins[k].re);
            im.push(bins[k].im);
            k += 1;
        }
        Ok(SpectrumPair { re, im })
    }
}

} // verus!
