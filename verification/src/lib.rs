//! A layered model of a planetary interior: a solid inner core, a convecting
//! outer core, five stacked mantle layers with an owned crust, and collections
//! of rigid plates and hot spots, advanced one simulated time step at a time.
//!
//! Every physical quantity is held as a fixed-point integer (metres,
//! millimetres, micrometres per year, microwatts per square metre,
//! thousandths of a dimensionless factor, thousandths of a percent,
//! thousandths of a degree), so that each update rule is an exact integer
//! formula stated in the function's contract.

use vstd::prelude::*;

pub mod units;
pub mod trig;
pub mod crust;
pub mod inner_core;
pub mod outer_core;
pub mod mantle;
pub mod step;

verus! {

} // verus!
