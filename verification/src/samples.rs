use vstd::prelude::*;

verus! {

/// The possible number of samples for multisample anti-aliasing.
#[derive(Debug, Clone, Copy, PartialEq, Eq, Structural)]
pub enum NumSamples {
    /// One sample
    One,
    /// Four samples
    Four,
}

impl NumSamples {
    /// The number of samples this value stands for.
    pub open spec fn spec_count(self) -> u32 {
        match self {
            NumSamples::One => 1,
            NumSamples::Four => 4,
        }
    }

    /// The number of samples this value stands for.
    pub fn count(self) -> (r: u32)
        ensures
            r == self.spec_count(),
    {
        match self {
            NumSamples::One => 1,
            NumSamples::Four => 4,
        }
    }

    /// Create a `NumSamples` from a number.
    /// Returns `None` if `i` is invalid.
    pub fn from_u32(i: u32) -> (r: Option<NumSamples>)
        ensures
            r == (if i == 1 { Some(NumSamples::One) } else if i == 4 { Some(NumSamples::Four) } else { None::<NumSamples> }),
    {
        match i {
            1 => Some(NumSamples::One),
            4 => Some(NumSamples::Four),
            _ => None,
        }
    }
}

} // verus!
