//! The step coordinator: one simulated time step in its fixed order.  The
//! inner core updates first; the outer core reacts to the inner core's
//! freshly updated state; the mantle then runs its flow, plate, crust and
//! hot-spot pass; and finally the lowermost boundary layer receives the
//! outer core's freshly re-derived mantle-bound heat flux.

use vstd::prelude::*;
use crate::inner_core::{InnerCore, spec_next_radius_m, spec_mass_kg, spec_heat_flux_uw};
use crate::outer_core::{OuterCore, CoreEvents, spec_convection_milli,
    spec_dampened_convection_milli, spec_heat_to_mantle_uw};
use crate::mantle::{Mantle, MantleReport, spec_asth_after_flow, spec_plate_after_motion,
    spec_plate_after_subduct, spec_hotspot_after_migrate, spec_dpp_after_heat};
use crate::crust::{Crust, spec_thinned, spec_erosion_mm};

verus! {

/// The fixed flux leaving the lowermost boundary layer downward each step
/// (two hundredths of a megawatt per square metre); nothing consumes it yet.
pub const D_PRIME_PRIME_OUTGOING_FLUX_UW: u64 = 20_000_000_000;

/// Everything one step reported: the outer core's stochastic events and the
/// mantle pass's aggregated totals.
#[derive(Clone, Copy, PartialEq, Eq, Structural, Debug)]
pub struct StepReport {
    pub core: CoreEvents,
    pub mantle: MantleReport,
}

/// Advances the whole model by one step of the given number of years, in
/// the fixed order that makes the step well-defined.
pub fn simulate_step(
    inner_core: &mut InnerCore,
    outer_core: &mut OuterCore,
    mantle: &mut Mantle,
    years: u64,
) -> (report: StepReport)
    requires
        old(inner_core).wf(),
        old(outer_core).wf(),
        old(mantle).crust.wf(),
    ensures
        final(inner_core).wf(),
        final(outer_core).wf(),
        final(mantle).crust.wf(),
        final(inner_core).radius_m == spec_next_radius_m(
            old(inner_core).radius_m as int,
            old(inner_core).crystallization_rate_um_yr as int,
            years as int,
        ),
        final(inner_core).mass_kg == spec_mass_kg(final(inner_core).radius_m as int),
        final(inner_core).mass_kg >= old(inner_core).mass_kg,
        final(inner_core).heat_flux_uw_m2 == spec_heat_flux_uw(
            final(inner_core).radius_m as int,
            old(inner_core).temperature_c as int,
        ),
        final(outer_core).heat_flux_from_inner_uw_m2 == final(inner_core).heat_flux_uw_m2,
        final(outer_core).convection_strength_milli == spec_dampened_convection_milli(
            spec_convection_milli(final(inner_core).heat_flux_uw_m2 as int),
            final(outer_core).light_elements_enrichment_milli_pct as int,
        ),
        final(outer_core).heat_flux_to_mantle_uw_m2 == spec_heat_to_mantle_uw(
            final(outer_core).convection_strength_milli as int,
        ),
        final(outer_core).magnetic_polarity_normal == if report.core.reversal_occurred {
            !old(outer_core).magnetic_polarity_normal
        } else {
            old(outer_core).magnetic_polarity_normal
        },
        final(outer_core).has_heat_anomaly == (old(outer_core).has_heat_anomaly
            || report.core.anomaly_generated),
        final(mantle).lithosphere == old(mantle).lithosphere,
        final(mantle).transition_zone == old(mantle).transition_zone,
        final(mantle).asthenosphere == spec_asth_after_flow(
            old(mantle).asthenosphere,
            old(mantle).lower_mantle.deep_convection_strength_milli,
        ),
        final(mantle).lower_mantle == Mantle::spec_plates_fold(*old(mantle)).1,
        final(mantle).plates@.len() == old(mantle).plates@.len(),
        forall|i: int|
            0 <= i < old(mantle).plates@.len() ==> final(mantle).plates@[i]
                == spec_plate_after_subduct(
                spec_plate_after_motion(
                    old(mantle).plates@[i],
                    Mantle::spec_step_flow_um_yr(*old(mantle)),
                    Mantle::spec_step_dir_millideg(*old(mantle)),
                ),
            ),
        final(mantle).hot_spots@.len() == old(mantle).hot_spots@.len(),
        forall|i: int|
            0 <= i < old(mantle).hot_spots@.len() ==> final(mantle).hot_spots@[i]
                == spec_hotspot_after_migrate(
                old(mantle).hot_spots@[i],
                Mantle::spec_step_flow_um_yr(*old(mantle)),
                Mantle::spec_step_dir_millideg(*old(mantle)),
            ),
        final(mantle).crust == (Crust {
            thickness_mm: spec_thinned(
                Mantle::spec_plates_fold(*old(mantle)).0.thickness_mm as int,
                spec_erosion_mm(
                    Mantle::spec_plates_fold(*old(mantle)).0.erosion_rate_um_yr as int,
                    years as int,
                ),
            ) as u64,
            ..Mantle::spec_plates_fold(*old(mantle)).0
        }),
        report.mantle == (MantleReport {
            erosion_mm: spec_erosion_mm(
                Mantle::spec_plates_fold(*old(mantle)).0.erosion_rate_um_yr as int,
                years as int,
            ) as u128,
            ..Mantle::spec_plates_fold(*old(mantle)).2
        }),
        final(mantle).d_prime_prime == spec_dpp_after_heat(
            old(mantle).d_prime_prime,
            final(outer_core).heat_flux_to_mantle_uw_m2,
            D_PRIME_PRIME_OUTGOING_FLUX_UW,
        ),
{
    inner_core.update_crystallization(years);
    let core_events = outer_core.update_dynamics(inner_core, years);
    let mantle_report = mantle.update_advanced_dynamics(years);
    mantle.d_prime_prime.transfer_heat(
        outer_core.heat_flux_to_mantle_uw_m2,
        D_PRIME_PRIME_OUTGOING_FLUX_UW,
    );
    StepReport { core: core_events, mantle: mantle_report }
}

} // verus!
