//! The hardware handles this crate consumes, and the register operations it
//! performs through them.
//!
//! Everything here is taken on trust from the peripheral crates: the handles
//! are opaque to the verifier, and nothing is claimed of what the register
//! operations do to the hardware or read from it.

use cortex_m::peripheral::DCB;
use cortex_m::peripheral::DWT;
use efm32hg309f64_pac::CMU;
use vstd::prelude::*;

verus! {

/// `efm32hg309f64_pac::CMU`, the owning handle of the clock management unit.
#[verifier::external_type_specification]
#[verifier::external_body]
pub struct ExCMU(CMU);

/// `cortex_m::peripheral::DCB`, the owning handle of the debug control block.
#[verifier::external_type_specification]
#[verifier::external_body]
pub struct ExDCB(DCB);

/// `cortex_m::peripheral::DWT`, the owning handle of the data watchpoint and
/// trace unit.
#[verifier::external_type_specification]
#[verifier::external_body]
pub struct ExDWT(DWT);

/// `DCB::enable_trace` sets the trace-enable bit of the debug exception and
/// monitor control register. It returns nothing and nothing is claimed of the
/// handle afterwards.
pub assume_specification[ cortex_m::peripheral::DCB::enable_trace ](dcb: &mut DCB);

/// `DWT::enable_cycle_counter` sets the cycle-counter enable bit of the unit's
/// control register. It returns nothing and nothing is claimed of the handle
/// afterwards.
pub assume_specification[ cortex_m::peripheral::DWT::enable_cycle_counter ](dwt: &mut DWT);

/// `DWT::cycle_count` reads the free-running cycle counter. The value is the
/// hardware's at the moment of the read, so nothing is claimed of it: two
/// reads may differ by any amount.
pub assume_specification[ cortex_m::peripheral::DWT::cycle_count ]() -> (count: u32);

} // verus!
