//! The interpolation kernels a conversion can be run with.

use libc::c_int;
use vstd::prelude::*;

verus! {

/// Interpolation kernel, from the costliest and cleanest to the cheapest.
///
/// Every kernel is known to the engine by a small number, its tag. The last
/// variant stands for any tag that no kernel answers to: the engine refuses it
/// when a converter is made.
#[derive(Debug, Clone, Copy, PartialEq, Eq, Structural)]
pub enum Interpolator {
    /// Windowed sinc, widest window and densest table.
    SincBestQuality,
    /// Windowed sinc, medium window.
    SincMediumQuality,
    /// Windowed sinc, narrowest window.
    SincFastest,
    /// The sample at the integer part of the read position.
    ZeroOrderHold,
    /// Blend of the two samples around the read position.
    Linear,
    /// No kernel.
    __Nonexhaustive,
}

/// How many kernels there are; their tags are the numbers below this one.
pub const KERNELS: c_int = 5;

impl Interpolator {
    /// The number by which the engine knows this kernel.
    pub open spec fn tag_spec(self) -> int {
        match self {
            Interpolator::SincBestQuality => 0,
            Interpolator::SincMediumQuality => 1,
            Interpolator::SincFastest => 2,
            Interpolator::ZeroOrderHold => 3,
            Interpolator::Linear => 4,
            Interpolator::__Nonexhaustive => 5,
        }
    }

    /// Whether a kernel stands behind this value.
    pub open spec fn supported(self) -> bool {
        self != Interpolator::__Nonexhaustive
    }

    /// The kernel with the given tag; the unsupported value for every other number.
    pub open spec fn of_tag(tag: int) -> Interpolator {
        if tag == 0 {
            Interpolator::SincBestQuality
        } else if tag == 1 {
            Interpolator::SincMediumQuality
        } else if tag == 2 {
            Interpolator::SincFastest
        } else if tag == 3 {
            Interpolator::ZeroOrderHold
        } else if tag == 4 {
            Interpolator::Linear
        } else {
            Interpolator::__Nonexhaustive
        }
    }

    /// The number by which the engine knows this kernel.
    pub fn tag(self) -> (t: c_int)
        ensures
            t == self.tag_spec(),
            0 <= t <= KERNELS,
            t < KERNELS <==> self.supported(),
    {
        match self {
            Interpolator::SincBestQuality => 0,
            Interpolator::SincMediumQuality => 1,
            Interpolator::SincFastest => 2,
            Interpolator::ZeroOrderHold => 3,
            Interpolator::Linear => 4,
            Interpolator::__Nonexhaustive => 5,
        }
    }

    /// Whether a kernel stands behind this value.
    pub fn is_supported(self) -> (b: bool)
        ensures
            b == self.supported(),
    {
        match self {
            Interpolator::__Nonexhaustive => false,
            _ => true,
        }
    }

    /// The kernel with the given tag, if there is one.
    pub fn from_tag(tag: c_int) -> (r: Option<Interpolator>)
        ensures
            r is Some <==> 0 <= tag < KERNELS,
            r matches Some(i) ==> i == Interpolator::of_tag(tag as int) && i.tag_spec() == tag
                && i.supported(),
    {
        match tag {
            0 => Some(Interpolator::SincBestQuality),
            1 => Some(Interpolator::SincMediumQuality),
            2 => Some(Interpolator::SincFastest),
            3 => Some(Interpolator::ZeroOrderHold),
            4 => Some(Interpolator::Linear),
            _ => None,
        }
    }

    /// A tag names at most one kernel, and `of_tag` finds the kernel of every tag.
    pub proof fn tag_is_injective(a: Interpolator, b: Interpolator)
        ensures
            a.tag_spec() == b.tag_spec() <==> a == b,
            Interpolator::of_tag(a.tag_spec()) == a,
    {
    }
}

} // verus!
