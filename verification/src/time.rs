//! Time units and the monotonic timer

use crate::clocks::Clocks;
use cortex_m::peripheral::DCB;
use cortex_m::peripheral::DWT;
use vstd::prelude::*;
use vstd::std_specs::convert::IntoSpec;

verus! {

/// Bits per second
#[derive(Clone, Copy, Debug, PartialEq, Eq, Structural)]
pub struct Bps(pub u32);

/// Hertz
#[derive(Clone, Copy, Debug, PartialEq, Eq, Structural)]
pub struct Hertz(pub u32);

/// KiloHertz
#[derive(Clone, Copy, Debug, PartialEq, Eq, Structural)]
pub struct KiloHertz(pub u32);

/// MegaHertz
#[derive(Clone, Copy, Debug, PartialEq, Eq, Structural)]
pub struct MegaHertz(pub u32);

/// Extension trait that adds convenience methods to the `u32` type
pub trait U32Ext {
    /// Wrap in `Bps`
    fn bps(self) -> Bps;

    /// Wrap in `Hertz`
    fn hz(self) -> Hertz;

    /// Wrap in `KiloHertz`
    fn khz(self) -> KiloHertz;

    /// Wrap in `MegaHertz`
    fn mhz(self) -> MegaHertz;
}

impl U32Ext for u32 {
    fn bps(self) -> (r: Bps)
        ensures
            r == Bps(self),
    {
        Bps(self)
    }

    fn hz(self) -> (r: Hertz)
        ensures
            r == Hertz(self),
    {
        Hertz(self)
    }

    fn khz(self) -> (r: KiloHertz)
        ensures
            r == KiloHertz(self),
    {
        KiloHertz(self)
    }

    fn mhz(self) -> (r: MegaHertz)
        ensures
            r == MegaHertz(self),
    {
        MegaHertz(self)
    }
}

/// `value * factor` where that fits in 32 bits, `u32::MAX` where it does not.
pub open spec fn saturating_scale(value: u32, factor: u32) -> u32 {
    if value * factor <= u32::MAX {
        (value * factor) as u32
    } else {
        u32::MAX
    }
}

fn scale(value: u32, factor: u32) -> (scaled: u32)
    ensures
        scaled == saturating_scale(value, factor),
{
    match value.checked_mul(factor) {
        Some(scaled) => scaled,
        None => u32::MAX,
    }
}

impl Into<Hertz> for KiloHertz {
    /// The same frequency in hertz, held at `u32::MAX` where it is beyond 32
    /// bits.
    fn into(self) -> (hz: Hertz) {
        Hertz(scale(self.0, 1_000))
    }
}

impl vstd::std_specs::convert::IntoSpecImpl<Hertz> for KiloHertz {
    open spec fn obeys_into_spec() -> bool {
        true
    }

    open spec fn into_spec(self) -> Hertz {
        Hertz(saturating_scale(self.0, 1_000))
    }
}

impl Into<Hertz> for MegaHertz {
    /// The same frequency in hertz, held at `u32::MAX` where it is beyond 32
    /// bits.
    fn into(self) -> (hz: Hertz) {
        Hertz(scale(self.0, 1_000_000))
    }
}

impl vstd::std_specs::convert::IntoSpecImpl<Hertz> for MegaHertz {
    open spec fn obeys_into_spec() -> bool {
        true
    }

    open spec fn into_spec(self) -> Hertz {
        Hertz(saturating_scale(self.0, 1_000_000))
    }
}

impl Into<KiloHertz> for MegaHertz {
    /// The same frequency in kilohertz, held at `u32::MAX` where it is beyond
    /// 32 bits.
    fn into(self) -> (khz: KiloHertz) {
        KiloHertz(scale(self.0, 1_000))
    }
}

impl vstd::std_specs::convert::IntoSpecImpl<KiloHertz> for MegaHertz {
    open spec fn obeys_into_spec() -> bool {
        true
    }

    open spec fn into_spec(self) -> KiloHertz {
        KiloHertz(saturating_scale(self.0, 1_000))
    }
}

/// Kilohertz convert to exactly a thousand times as many hertz, as long as
/// that many fit in 32 bits.
pub proof fn lemma_khz_into_hertz(n: u32)
    requires
        n * 1_000 <= u32::MAX,
    ensures
        IntoSpec::<Hertz>::into_spec(KiloHertz(n)) == Hertz((n * 1_000) as u32),
{
}

/// Megahertz convert to exactly a million times as many hertz, as long as
/// that many fit in 32 bits.
pub proof fn lemma_mhz_into_hertz(n: u32)
    requires
        n * 1_000_000 <= u32::MAX,
    ensures
        IntoSpec::<Hertz>::into_spec(MegaHertz(n)) == Hertz((n * 1_000_000) as u32),
{
}

/// Megahertz convert to exactly a thousand times as many kilohertz, as long
/// as that many fit in 32 bits.
pub proof fn lemma_mhz_into_khz(n: u32)
    requires
        n * 1_000 <= u32::MAX,
    ensures
        IntoSpec::<KiloHertz>::into_spec(MegaHertz(n)) == KiloHertz((n * 1_000) as u32),
{
}

/// Megahertz brought to hertz by way of kilohertz come to the same as
/// megahertz brought to hertz at once, beyond 32 bits too.
pub proof fn lemma_mhz_into_hertz_by_way_of_khz(f: MegaHertz)
    ensures
        IntoSpec::<Hertz>::into_spec(IntoSpec::<KiloHertz>::into_spec(f)) == IntoSpec::<
            Hertz,
        >::into_spec(f),
{
}

/// A token that can be passed around and guarantees
/// that trace is enabled
#[derive(Clone, Copy)]
pub struct TraceEnabled {
    _0: (),
}

/// Enables trace through the debug control block and keeps the block, so
/// that nothing can switch trace off again.
///
/// The token is handed out only after `DCB::enable_trace` has returned.
pub fn enable_trace(mut dcb: DCB) -> (token: TraceEnabled)
    ensures
        exists|handle: &mut DCB| call_ensures(DCB::enable_trace, (handle,), ()),
{
    dcb.enable_trace();
    TraceEnabled { _0: () }
}

/// A monotonic nondecreasing timer
#[derive(Clone, Copy)]
pub struct MonoTimer {
    frequency: Hertz,
}

impl MonoTimer {
    /// The frequency that drives the counter, for use in contracts.
    pub closed spec fn spec_frequency(&self) -> Hertz {
        self.frequency
    }

    /// Creates a new `Monotonic` timer
    ///
    /// The cycle counter is started through `DWT::enable_cycle_counter` and
    /// its handle kept: from here on the counter cannot be stopped or reset.
    pub fn new(mut dwt: DWT, _trace_enabled: TraceEnabled, clocks: Clocks) -> (timer: Self)
        ensures
            timer.frequency() == clocks.hfclk(),
            exists|handle: &mut DWT| call_ensures(DWT::enable_cycle_counter, (handle,), ()),
    {
        dwt.enable_cycle_counter();
        MonoTimer { frequency: clocks.hfclk() }
    }

    /// Returns the frequency at which the monotonic timer is operating at
    #[verifier::when_used_as_spec(spec_frequency)]
    pub fn frequency(&self) -> (freq: Hertz)
        ensures
            freq == self.spec_frequency(),
    {
        self.frequency
    }

    /// Returns an `Instant` corresponding to "now"
    ///
    /// The instant holds a reading of the cycle counter that
    /// `DWT::cycle_count` returned.
    pub fn now(&self) -> (instant: Instant)
        ensures
            call_ensures(DWT::cycle_count, (), instant@),
    {
        Instant::at(DWT::cycle_count())
    }
}

/// How far a free-running 32-bit counter has come from `start` when it reads
/// `end`: their difference modulo 2^32.
pub open spec fn ticks_between(start: u32, end: u32) -> u32 {
    ((end - start) % 0x1_0000_0000) as u32
}

/// What a free-running 32-bit counter reads `ticks` after it read `start`,
/// however many times it has gone round in between.
pub open spec fn counter_after(start: u32, ticks: nat) -> u32 {
    ((start + ticks) % 0x1_0000_0000) as u32
}

/// A measurement of a monotonically nondecreasing clock
#[derive(Clone, Copy)]
pub struct Instant {
    now: u32,
}

impl View for Instant {
    type V = u32;

    /// The counter value at capture.
    closed spec fn view(&self) -> u32 {
        self.now
    }
}

impl Instant {
    /// The instant at which the cycle counter read `count`.
    pub fn at(count: u32) -> (instant: Instant)
        ensures
            instant@ == count,
    {
        Instant { now: count }
    }

    /// Ticks elapsed between the creation of the `Instant` and the moment the
    /// cycle counter reads `count`, right as long as the counter has not gone
    /// all the way round in between.
    pub fn elapsed_at(&self, count: u32) -> (ticks: u32)
        ensures
            ticks == ticks_between(self@, count),
    {
        count.wrapping_sub(self.now)
    }

    /// Ticks elapsed since the `Instant` was created
    ///
    /// Reads the cycle counter and measures up to that reading as
    /// [`Instant::elapsed_at`] does: the result is the distance from the
    /// capture to a reading that `DWT::cycle_count` returned.
    pub fn elapsed(&self) -> (ticks: u32)
        ensures
            exists|count: u32|
                call_ensures(DWT::cycle_count, (), count) && ticks == ticks_between(self@, count),
    {
        self.elapsed_at(DWT::cycle_count())
    }
}

/// Whatever the counter read at capture, and whether or not it has passed
/// its maximum since, a counter that moved on by fewer than 2^32 ticks is
/// seen as exactly that many elapsed. Beyond that the whole rounds are lost
/// and only the remainder is seen.
pub proof fn lemma_elapsed_across_wraparound(start: u32, ticks: nat)
    ensures
        ticks < 0x1_0000_0000 ==> ticks_between(start, counter_after(start, ticks)) == ticks,
        ticks_between(start, counter_after(start, ticks)) == ticks % 0x1_0000_0000,
{
}

/// While the counter still reads what it read at capture, nothing has
/// elapsed.
pub proof fn lemma_elapsed_without_ticks(count: u32)
    ensures
        ticks_between(count, count) == 0,
{
}

} // verus!
