//! Clock configuration

use crate::time::Hertz;
use crate::time::U32Ext;
use efm32hg309f64_pac::CMU;
use vstd::prelude::*;

verus! {

/// Frequency of the high-frequency domain on its default oscillator.
pub const HFCLK_DEFAULT_HZ: u32 = 21_000_000;

/// Frequency of the low-frequency domain on its default oscillator.
pub const LFCLK_DEFAULT_HZ: u32 = 32_768;

/// Extension trait that constrains the clock management unit
pub trait ClocksExt {
    /// The configuration that constraining this unit yields.
    spec fn constrained(self) -> ClocksCfg;

    /// Consumes the unit and hands out the tokens of its two clock domains.
    fn constrain(self) -> (cfg: ClocksCfg)
        ensures
            cfg == self.constrained(),
    ;
}

/// A clock configuration in progress: the tokens of both domains, not yet
/// readable for frequencies.
pub struct ClocksCfg {
    pub hfclk: HFCLK,
    pub lfclk: LFCLK,
}

/// Token of the high-frequency clock domain
pub struct HFCLK {
    _0: (),
}

/// Token of the low-frequency clock domain
pub struct LFCLK {
    _0: (),
}

/// Frozen clock frequencies
///
/// The existence of this value indicates that the clock configuration can no
/// longer be changed
#[derive(Clone, Copy)]
pub struct Clocks {
    hfclk: Hertz,
    lfclk: Hertz,
}

impl ClocksExt for CMU {
    /// The tokens of both domains, whatever unit was handed in.
    closed spec fn constrained(self) -> ClocksCfg {
        ClocksCfg { hfclk: HFCLK { _0: () }, lfclk: LFCLK { _0: () } }
    }

    /// Keeps the unit for good and touches none of its registers.
    fn constrain(self) -> (cfg: ClocksCfg) {
        ClocksCfg { hfclk: HFCLK { _0: () }, lfclk: LFCLK { _0: () } }
    }
}

impl ClocksCfg {
    /// The clocks that freezing this configuration fixes.
    pub closed spec fn frozen(self) -> Clocks {
        Clocks { hfclk: Hertz(HFCLK_DEFAULT_HZ), lfclk: Hertz(LFCLK_DEFAULT_HZ) }
    }

    /// Consumes the configuration and fixes the frequencies of both domains.
    /// Neither domain can be moved off its default oscillator, so these are
    /// always 21 MHz and 32.768 kHz.
    pub fn freeze(self) -> (clocks: Clocks)
        ensures
            clocks == self.frozen(),
            clocks.hfclk() == Hertz(HFCLK_DEFAULT_HZ),
            clocks.lfclk() == Hertz(LFCLK_DEFAULT_HZ),
    {
        Clocks { hfclk: HFCLK_DEFAULT_HZ.hz(), lfclk: LFCLK_DEFAULT_HZ.hz() }
    }
}

impl Clocks {
    /// The frequency of the high-frequency domain, for use in contracts.
    pub closed spec fn spec_hfclk(&self) -> Hertz {
        self.hfclk
    }

    /// The frequency of the low-frequency domain, for use in contracts.
    pub closed spec fn spec_lfclk(&self) -> Hertz {
        self.lfclk
    }

    /// The frequency of the high-frequency clock domain
    #[verifier::when_used_as_spec(spec_hfclk)]
    pub fn hfclk(&self) -> (freq: Hertz)
        ensures
            freq == self.spec_hfclk(),
    {
        self.hfclk
    }

    /// The frequency of the low-frequency clock domain
    #[verifier::when_used_as_spec(spec_lfclk)]
    pub fn lfclk(&self) -> (freq: Hertz)
        ensures
            freq == self.spec_lfclk(),
    {
        self.lfclk
    }
}

/// Constraining any clock management unit and freezing the configuration so
/// obtained gives 21 MHz on the high-frequency domain and 32.768 kHz on the
/// low-frequency one.
pub proof fn lemma_constrain_then_freeze(cmu: CMU)
    ensures
        cmu.constrained().frozen().hfclk() == Hertz(21_000_000),
        cmu.constrained().frozen().lfclk() == Hertz(32_768),
{
}

} // verus!
