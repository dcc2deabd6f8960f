use vstd::prelude::*;

verus! {

/// A frequency in whole hertz.
#[derive(Debug, Clone, Copy, PartialEq, Eq, Structural, PartialOrd, Ord, Hash)]
pub struct Frequency {
    pub hz: u64,
}

impl Frequency {
    pub open spec fn spec_from_hz(hz: u64) -> Frequency {
        Frequency { hz }
    }

    pub open spec fn spec_from_khz(khz: u64) -> Frequency {
        Frequency { hz: (khz * 1_000) as u64 }
    }

    pub open spec fn spec_from_mhz(mhz: u64) -> Frequency {
        Frequency { hz: (mhz * 1_000_000) as u64 }
    }

    pub open spec fn spec_as_hz(self) -> u64 {
        self.hz
    }

    /// Whole kilohertz; what is left below one kilohertz is dropped.
    pub open spec fn spec_as_khz(self) -> u64 {
        self.hz / 1_000
    }

    /// Whole megahertz; what is left below one megahertz is dropped.
    pub open spec fn spec_as_mhz(self) -> u64 {
        self.hz / 1_000_000
    }

    #[verifier::when_used_as_spec(spec_from_hz)]
    pub fn from_hz(hz: u64) -> (f: Frequency)
        ensures
            f == Frequency::spec_from_hz(hz),
    {
        Frequency { hz }
    }

    #[verifier::when_used_as_spec(spec_from_khz)]
    pub fn from_khz(khz: u64) -> (f: Frequency)
        requires
            khz * 1_000 <= u64::MAX,
        ensures
            f == Frequency::spec_from_khz(khz),
    {
        Frequency { hz: khz * 1_000 }
    }

    #[verifier::when_used_as_spec(spec_from_mhz)]
    pub fn from_mhz(mhz: u64) -> (f: Frequency)
        requires
            mhz * 1_000_000 <= u64::MAX,
        ensures
            f == Frequency::spec_from_mhz(mhz),
    {
        Frequency { hz: mhz * 1_000_000 }
    }

    #[verifier::when_used_as_spec(spec_as_hz)]
    pub fn as_hz(self) -> (hz: u64)
        ensures
            hz == self.spec_as_hz(),
    {
        self.hz
    }

    #[verifier::when_used_as_spec(spec_as_khz)]
    pub fn as_khz(self) -> (khz: u64)
        ensures
            khz == self.spec_as_khz(),
    {
        self.hz / 1_000
    }

    #[verifier::when_used_as_spec(spec_as_mhz)]
    pub fn as_mhz(self) -> (mhz: u64)
        ensures
            mhz == self.spec_as_mhz(),
    {
        self.hz / 1_000_000
    }

    /// The sum, unless it does not fit.
    pub fn checked_add(self, rhs: Frequency) -> (sum: Option<Frequency>)
        ensures
            sum == if self.hz + rhs.hz <= u64::MAX {
                Some(Frequency { hz: (self.hz + rhs.hz) as u64 })
            } else {
                None
            },
    {
        if rhs.hz <= u64::MAX - self.hz {
            Some(Frequency { hz: self.hz + rhs.hz })
        } else {
            None
        }
    }

    /// The difference, unless `rhs` is the greater.
    pub fn checked_sub(self, rhs: Frequency) -> (difference: Option<Frequency>)
        ensures
            difference == if rhs.hz <= self.hz {
                Some(Frequency { hz: (self.hz - rhs.hz) as u64 })
            } else {
                None
            },
    {
        if rhs.hz <= self.hz {
            Some(Frequency { hz: self.hz - rhs.hz })
        } else {
            None
        }
    }
}

impl core::ops::Add for Frequency {
    type Output = Frequency;

    fn add(self, rhs: Frequency) -> (sum: Frequency) {
        Frequency { hz: self.hz + rhs.hz }
    }
}

impl vstd::std_specs::ops::AddSpecImpl for Frequency {
    open spec fn obeys_add_spec() -> bool {
        true
    }

    open spec fn add_req(self, rhs: Frequency) -> bool {
        self.hz + rhs.hz <= u64::MAX
    }

    open spec fn add_spec(self, rhs: Frequency) -> Frequency {
        Frequency { hz: (self.hz + rhs.hz) as u64 }
    }
}

impl core::ops::Sub for Frequency {
    type Output = Frequency;

    fn sub(self, rhs: Frequency) -> (difference: Frequency) {
        Frequency { hz: self.hz - rhs.hz }
    }
}

impl vstd::std_specs::ops::SubSpecImpl for Frequency {
    open spec fn obeys_sub_spec() -> bool {
        true
    }

    open spec fn sub_req(self, rhs: Frequency) -> bool {
        rhs.hz <= self.hz
    }

    open spec fn sub_spec(self, rhs: Frequency) -> Frequency {
        Frequency { hz: (self.hz - rhs.hz) as u64 }
    }
}

impl core::ops::Div<u64> for Frequency {
    type Output = Frequency;

    fn div(self, rhs: u64) -> (quotient: Frequency) {
        Frequency { hz: self.hz / rhs }
    }
}

impl vstd::std_specs::ops::DivSpecImpl<u64> for Frequency {
    open spec fn obeys_div_spec() -> bool {
        true
    }

    open spec fn div_req(self, rhs: u64) -> bool {
        rhs != 0
    }

    open spec fn div_spec(self, rhs: u64) -> Frequency {
        Frequency { hz: self.hz / rhs }
    }
}

impl Default for Frequency {
    fn default() -> (f: Frequency)
        ensures
            f == (Frequency { hz: 0 }),
    {
        Frequency { hz: 0 }
    }
}

} // verus!
