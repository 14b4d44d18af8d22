use tomu_hal::clocks::{HFCLK_DEFAULT_HZ, LFCLK_DEFAULT_HZ};
use tomu_hal::time::{Hertz, KiloHertz, U32Ext};

#[test]
fn default_oscillator_frequencies() {
    assert_eq!(HFCLK_DEFAULT_HZ.hz(), Hertz(21_000_000));
    assert_eq!(LFCLK_DEFAULT_HZ.hz(), Hertz(32_768));
}

#[test]
fn high_frequency_default_is_21_mhz() {
    let khz: KiloHertz = 21u32.mhz().into();
    let hz: Hertz = khz.into();
    assert_eq!(hz.0, HFCLK_DEFAULT_HZ);
}
