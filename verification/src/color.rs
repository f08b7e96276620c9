use vstd::prelude::*;

verus! {

/// One color channel held as the exact fraction `num / den`.
///
/// The invariant `wf` keeps the value inside [0, 1]: the denominator is
/// positive and the numerator never exceeds it.
#[derive(Clone, Copy, Debug, PartialEq, Eq, Structural)]
pub struct Channel {
    pub num: u32,
    pub den: u32,
}

impl Channel {
    /// A positive denominator and a numerator no greater than it,
    /// so the channel's value lies in [0, 1].
    pub open spec fn wf(self) -> bool {
        0 < self.den && self.num <= self.den
    }

    /// The channel `value / den`, with the value clamped to the
    /// denominator so the fraction stays in [0, 1].
    pub fn clamped(value: u32, den: u32) -> (c: Channel)
        requires
            0 < den,
        ensures
            c.wf(),
            c.den == den,
            (c.num == if value <= den { value } else { den }),
    {
        let num: u32 = if value <= den { value } else { den };
        Channel { num, den }
    }

    /// The channel's value scaled by 1_000_000 and truncated:
    /// an exact integer stand-in for the fraction, for callers that
    /// compare channel values.
    pub fn millionths(&self) -> (r: u64)
        requires
            self.wf(),
        ensures
            r == (self.num as int) * 1_000_000 / (self.den as int),
    {
        ((self.num as u64) * 1_000_000) / (self.den as u64)
    }
}

/// The RGBA color a frame is cleared to, each channel an exact fraction.
#[derive(Clone, Copy, Debug, PartialEq, Eq, Structural)]
pub struct ClearColor {
    pub red: Channel,
    pub green: Channel,
    pub blue: Channel,
    pub alpha: Channel,
}

impl ClearColor {
    /// Every channel lies in [0, 1].
    pub open spec fn wf(self) -> bool {
        self.red.wf() && self.green.wf() && self.blue.wf() && self.alpha.wf()
    }
}

} // verus!
