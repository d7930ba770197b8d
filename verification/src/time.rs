//! Frequencies.

use vstd::prelude::*;

verus! {

/// A frequency in hertz.
#[derive(Clone, Copy, Debug, PartialEq, Eq, Structural)]
pub struct Hertz(pub u32);

impl Hertz {
    /// The largest number of kilohertz that fits.
    pub const MAX_KHZ: u32 = 4_294_967;

    /// The largest number of megahertz that fits.
    pub const MAX_MHZ: u32 = 4_294;

    /// `n` hertz.
    pub fn hz(n: u32) -> (f: Hertz)
        ensures
            f.0 == n,
    {
        Hertz(n)
    }

    /// `n` kilohertz.
    pub fn khz(n: u32) -> (f: Hertz)
        requires
            n <= Self::MAX_KHZ,
        ensures
            f.0 == n * 1_000,
    {
        Hertz(n * 1_000)
    }

    /// `n` megahertz.
    pub fn mhz(n: u32) -> (f: Hertz)
        requires
            n <= Self::MAX_MHZ,
        ensures
            f.0 == n * 1_000_000,
    {
        Hertz(n * 1_000_000)
    }

    /// `n` kilohertz, or `None` where that is more than a `Hertz` holds.
    pub fn checked_khz(n: u32) -> (f: Option<Hertz>)
        ensures
            f == (if n <= Self::MAX_KHZ {
                Some(Hertz((n * 1_000) as u32))
            } else {
                None
            }),
    {
        if n <= Self::MAX_KHZ {
            Some(Hertz(n * 1_000))
        } else {
            None
        }
    }

    /// `n` megahertz, or `None` where that is more than a `Hertz` holds.
    pub fn checked_mhz(n: u32) -> (f: Option<Hertz>)
        ensures
            f == (if n <= Self::MAX_MHZ {
                Some(Hertz((n * 1_000_000) as u32))
            } else {
                None
            }),
    {
        if n <= Self::MAX_MHZ {
            Some(Hertz(n * 1_000_000))
        } else {
            None
        }
    }

    /// The frequency as a number of hertz.
    pub fn raw(self) -> (n: u32)
        ensures
            n == self.0,
    {
        self.0
    }
}

} // verus!
