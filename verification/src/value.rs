//! Caller-supplied parameters that are either a fixed unsigned integer
//! or an inclusive range resolved by a bounded random sample.
//!
//! Resolving a range draws from a normal distribution whose mean is the
//! midpoint and whose standard deviation is half the width. The draw
//! itself happens outside this crate (it is floating-point); the caller
//! obtains the distribution parameters from [`UIntValue::normal_params`],
//! performs the draw, and hands the truncated sample (or `None`, if the
//! distribution could not be constructed) to [`UIntValue::get`].

use vstd::prelude::*;

use crate::errors::WdError;

verus! {

/// A fixed unsigned integer, or an inclusive range to be sampled.
#[derive(Clone, Copy, Debug, PartialEq, Eq, Structural)]
pub enum UIntValue {
    UInt(u32),
    UIntRange(u32, u32),
}

/// `s` forced into `[min, max]` (for `min <= max`).
pub open spec fn spec_clamp(s: u32, min: u32, max: u32) -> u32 {
    if s < min {
        min
    } else if s > max {
        max
    } else {
        s
    }
}

impl UIntValue {
    /// A range is well formed when its lower bound does not exceed its
    /// upper bound.
    pub open spec fn wf(self) -> bool {
        match self {
            UIntValue::UInt(_) => true,
            UIntValue::UIntRange(min, max) => min <= max,
        }
    }

    /// What resolution yields: a fixed value is itself; a range clamps
    /// the sample `draw` into its bounds, and fails when the draw could
    /// not be made (`draw == None`).
    pub open spec fn spec_resolve(self, draw: Option<u32>) -> Result<u32, WdError> {
        match self {
            UIntValue::UInt(v) => Ok(v),
            UIntValue::UIntRange(min, max) => match draw {
                Some(s) => Ok(spec_clamp(s, min, max)),
                None => Err(WdError::Sampling),
            },
        }
    }

    /// The distribution parameters for a range: mean is the midpoint,
    /// standard deviation half the width. A fixed value needs no draw.
    pub fn normal_params(&self) -> (r: Option<(u32, u32)>)
        requires
            self.wf(),
        ensures
            match *self {
                UIntValue::UInt(_) => r is None,
                UIntValue::UIntRange(min, max) => r == Some(
                    (((min + max) / 2) as u32, ((max - min) / 2) as u32),
                ),
            },
    {
        match self {
            UIntValue::UInt(_) => None,
            UIntValue::UIntRange(min, max) => {
                let mean: u64 = (*min as u64 + *max as u64) / 2;
                let std_dev: u32 = (*max - *min) / 2;
                Some((mean as u32, std_dev))
            },
        }
    }

    /// Resolve to a concrete integer. A fixed value resolves to itself,
    /// whatever `draw` holds. A range takes `draw` as the truncated
    /// normal sample and clamps it into `[min, max]`; `draw == None`
    /// means the distribution could not be constructed, which surfaces
    /// as a sampling error.
    pub fn get(&self, draw: Option<u32>) -> (r: Result<u32, WdError>)
        requires
            self.wf(),
        ensures
            r == self.spec_resolve(draw),
            r is Ok && self is UIntRange ==> self->UIntRange_0 <= r->Ok_0 <= self->UIntRange_1,
    {
        match self {
            UIntValue::UInt(v) => Ok(*v),
            UIntValue::UIntRange(min, max) => match draw {
                Some(s) => {
                    let lo = if s < *min {
                        *min
                    } else {
                        s
                    };
                    let v = if lo > *max {
                        *max
                    } else {
                        lo
                    };
                    Ok(v)
                },
                None => Err(WdError::Sampling),
            },
        }
    }
}

/// Law: resolving any well-formed range yields a value inside the range,
/// whatever was drawn.
pub proof fn lemma_range_resolution_in_bounds(min: u32, max: u32, draw: Option<u32>)
    requires
        min <= max,
        draw is Some,
    ensures
        ({
            let r = UIntValue::UIntRange(min, max).spec_resolve(draw);
            r matches Ok(v) && min <= v <= max
        }),
{
}

/// Law: resolving a fixed value yields that value, whatever was drawn.
pub proof fn lemma_fixed_resolution_identity(v: u32, draw: Option<u32>)
    ensures
        UIntValue::UInt(v).spec_resolve(draw) == Ok::<u32, WdError>(v),
{
}

} // verus!
