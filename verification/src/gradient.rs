//! Rules that govern how the colour ramp of a terrain is built.
//!
//! The ramp itself is interpolated in floating point by the caller. What is
//! decided here is over which domain it is built, when its construction is
//! given up, and whether it is quantized into flat bands.

use vstd::prelude::*;

verus! {

/// The domain over which a colour ramp is built.
#[derive(Clone, Copy, Debug, PartialEq, Eq, Structural)]
pub enum RampDomain {
    /// The positions that the control points declare.
    Declared,
    /// Evenly spaced positions, chosen for the same colours.
    EvenlySpaced,
}

/// What becomes of a continuous ramp.
#[derive(Clone, Copy, Debug, PartialEq, Eq, Structural)]
pub enum Quantization {
    /// The ramp stays continuous.
    Continuous,
    /// The ramp is cut into this many flat bands.
    Bands(usize),
}

impl RampDomain {
    /// The domain that is tried first.
    pub fn first() -> (domain: RampDomain)
        ensures
            domain == RampDomain::Declared,
    {
        RampDomain::Declared
    }

    /// The domain to try once building over `self` has failed, if there is
    /// one left.
    pub open spec fn next(self) -> Option<RampDomain> {
        match self {
            RampDomain::Declared => Some(RampDomain::EvenlySpaced),
            RampDomain::EvenlySpaced => None,
        }
    }

    /// The domain to fall back to after a failed build over `self`. `None`
    /// says that the failure is final.
    pub fn fallback(self) -> (domain: Option<RampDomain>)
        ensures
            domain == self.next(),
    {
        match self {
            RampDomain::Declared => Some(RampDomain::EvenlySpaced),
            RampDomain::EvenlySpaced => None,
        }
    }
}

/// Quantization of a ramp with the given segment count: zero segments keep
/// it continuous.
pub fn quantization(segments: usize) -> (choice: Quantization)
    ensures
        choice == (if segments == 0 {
            Quantization::Continuous
        } else {
            Quantization::Bands(segments)
        }),
{
    if segments == 0 {
        Quantization::Continuous
    } else {
        Quantization::Bands(segments)
    }
}

/// Building a ramp ends after at most two attempts: the declared domain is
/// followed by the evenly spaced one, and nothing follows that.
pub proof fn lemma_fallback_ends(domain: RampDomain)
    ensures
        domain.next() matches Some(second) ==> second.next() is None,
        domain.next() != Some(RampDomain::Declared),
{
}

} // verus!
