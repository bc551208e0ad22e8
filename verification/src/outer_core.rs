//! The liquid outer core: convection strength re-derived from the inner
//! core's heat flux, light-element enrichment with an irreversible
//! convection damping, magnetic field and flow split, two stochastic
//! transitions (polarity reversal, heat anomaly), and heat transfer into
//! the mantle with a running energy total.
//!
//! Units: heat flux in microwatts per square metre, factors in thousandths,
//! percentages in thousandths of a percent, time in thousands of years,
//! accumulated heat in joules (per square metre of boundary, as an
//! area-independent simplification).

use vstd::prelude::*;
use crate::inner_core::InnerCore;
use crate::units::{sat_u64, sat_u128, clamp_int, min_int, sat_add_u64, sat_add_u128,
    clamp_add_u32, MILLI_ONE, MILLI_PCT_FULL};

verus! {

/// Relies on rand::random, which draws a fresh value from the thread-local
/// generator; nothing is promised of the value.
pub assume_specification<T>[ rand::random::<T> ]() -> (r: T)
    where
        rand::distributions::Standard: rand::distributions::Distribution<T>,
;

/// Enrichment above thirty percent dampens convection.
pub const ENRICHMENT_DAMPING_THRESHOLD_MILLI_PCT: u32 = 30_000;

/// A reversal is possible only below this field strength.
pub const REVERSAL_FIELD_THRESHOLD_MILLI: u32 = 300;

/// A heat anomaly is possible only above this convection strength.
pub const ANOMALY_CONVECTION_THRESHOLD_MILLI: u32 = 800;

/// Convection strength as thousandths: the inner core's heat flux measured
/// against a reference flux of a tenth of a megawatt per square metre,
/// capped at one.
pub open spec fn spec_convection_milli(heat_flux_uw: int) -> int {
    min_int(heat_flux_uw / 100_000_000, 1000)
}

/// Convection after the enrichment check: dampened by five percent when
/// enrichment exceeds the threshold.
pub open spec fn spec_dampened_convection_milli(conv: int, enrichment_milli_pct: int) -> int {
    if enrichment_milli_pct > ENRICHMENT_DAMPING_THRESHOLD_MILLI_PCT {
        conv * 950 / 1000
    } else {
        conv
    }
}

/// Field strength as convection times the inner core's contribution factor.
pub open spec fn spec_magnetic_milli(conv: int, contribution_milli: int) -> int {
    conv * contribution_milli / 1000
}

/// Heat flux handed to the mantle: six hundredths of a megawatt per square
/// metre at full convection.
pub open spec fn spec_heat_to_mantle_uw(conv: int) -> int {
    conv * 60_000_000
}

/// Energy per year carried by a flux, in joules: microwatts scaled to watts
/// times the seconds of a year.
pub open spec fn spec_heat_j_per_yr(flux_uw: int) -> int {
    flux_uw * 31_536 / 1000
}

/// Enrichment gained from crystallization over the elapsed years, in
/// thousandths of a percent, capped at one percent per update.
pub open spec fn spec_enrichment_delta_milli(rate_um_yr: int, years: int) -> int {
    min_int(rate_um_yr * years / 100_000, 1000)
}

/// What the stochastic checks of one update reported.
#[derive(Clone, Copy, PartialEq, Eq, Structural, Debug)]
pub struct CoreEvents {
    pub reversal_occurred: bool,
    pub anomaly_generated: bool,
}

#[derive(Clone, Copy, PartialEq, Eq, Structural, Debug)]
pub struct OuterCore {
    pub thickness_km: u32,
    pub temperature_c: u32,
    pub density_kg_m3: u32,
    pub iron_milli_pct: u32,
    pub nickel_milli_pct: u32,
    pub light_elements_milli_pct: u32,
    pub light_elements_enrichment_milli_pct: u32,
    pub convection_strength_milli: u32,
    pub magnetic_field_strength_milli: u32,
    pub heat_flux_from_inner_uw_m2: u64,
    pub heat_flux_to_mantle_uw_m2: u64,
    pub total_time_kyr: u64,
    pub magnetic_polarity_normal: bool,
    pub toroidal_flow_milli: u32,
    pub poloidal_flow_milli: u32,
    pub has_heat_anomaly: bool,
    pub cumulative_heat_to_mantle_j: u128,
}

impl OuterCore {
    /// Bounds every operation preserves.
    pub open spec fn wf(self) -> bool {
        &&& self.light_elements_enrichment_milli_pct <= MILLI_PCT_FULL
        &&& self.convection_strength_milli <= MILLI_ONE
        &&& self.magnetic_field_strength_milli <= MILLI_ONE
        &&& self.toroidal_flow_milli <= MILLI_ONE
        &&& self.poloidal_flow_milli <= MILLI_ONE
        &&& self.iron_milli_pct <= MILLI_PCT_FULL
        &&& self.nickel_milli_pct <= MILLI_PCT_FULL
        &&& self.light_elements_milli_pct <= MILLI_PCT_FULL
    }

    /// The starting state derived from the inner core's current heat flux
    /// and magnetic contribution.
    pub open spec fn spec_new(ic: InnerCore) -> OuterCore {
        let conv = spec_convection_milli(ic.heat_flux_uw_m2 as int);
        OuterCore {
            thickness_km: 2200,
            temperature_c: 4500,
            density_kg_m3: 11_000,
            iron_milli_pct: 85_000,
            nickel_milli_pct: 5_000,
            light_elements_milli_pct: 10_000,
            light_elements_enrichment_milli_pct: 0,
            convection_strength_milli: conv as u32,
            magnetic_field_strength_milli: spec_magnetic_milli(
                conv,
                ic.magnetic_contribution_milli as int,
            ) as u32,
            heat_flux_from_inner_uw_m2: ic.heat_flux_uw_m2,
            heat_flux_to_mantle_uw_m2: 40_000_000_000,
            total_time_kyr: 0,
            magnetic_polarity_normal: true,
            toroidal_flow_milli: (conv * 700 / 1000) as u32,
            poloidal_flow_milli: (conv * 300 / 1000) as u32,
            has_heat_anomaly: false,
            cumulative_heat_to_mantle_j: 0,
        }
    }

    pub fn new(inner_core: &InnerCore) -> (o: OuterCore)
        requires
            inner_core.wf(),
        ensures
            o == Self::spec_new(*inner_core),
            o.wf(),
    {
        let conv64: u64 = inner_core.heat_flux_uw_m2 / 100_000_000;
        let conv: u32 = if conv64 > 1000 {
            1000
        } else {
            conv64 as u32
        };
        let c64: u64 = conv as u64;
        let m64: u64 = inner_core.magnetic_contribution_milli as u64;
        assert(c64 * m64 <= 1_000_000) by (nonlinear_arith)
            requires
                c64 <= 1000,
                m64 <= 1000,
        ;
        let magnetic: u32 = (c64 * m64 / 1000) as u32;
        OuterCore {
            thickness_km: 2200,
            temperature_c: 4500,
            density_kg_m3: 11_000,
            iron_milli_pct: 85_000,
            nickel_milli_pct: 5_000,
            light_elements_milli_pct: 10_000,
            light_elements_enrichment_milli_pct: 0,
            convection_strength_milli: conv,
            magnetic_field_strength_milli: magnetic,
            heat_flux_from_inner_uw_m2: inner_core.heat_flux_uw_m2,
            heat_flux_to_mantle_uw_m2: 40_000_000_000,
            total_time_kyr: 0,
            magnetic_polarity_normal: true,
            toroidal_flow_milli: (conv as u64 * 700 / 1000) as u32,
            poloidal_flow_milli: (conv as u64 * 300 / 1000) as u32,
            has_heat_anomaly: false,
            cumulative_heat_to_mantle_j: 0,
        }
    }

    /// Shifts the light-element enrichment, clamped into the percentage
    /// range whatever the magnitude or sign of the delta.
    pub fn enrich_light_elements(&mut self, delta_milli_pct: i64)
        ensures
            *final(self) == (OuterCore {
                light_elements_enrichment_milli_pct: clamp_int(
                    old(self).light_elements_enrichment_milli_pct + delta_milli_pct,
                    0,
                    MILLI_PCT_FULL as int,
                ) as u32,
                ..*old(self)
            }),
            0 <= final(self).light_elements_enrichment_milli_pct <= MILLI_PCT_FULL,
            old(self).wf() ==> final(self).wf(),
    {
        self.light_elements_enrichment_milli_pct = clamp_add_u32(
            self.light_elements_enrichment_milli_pct,
            delta_milli_pct,
            MILLI_PCT_FULL,
        );
    }

    /// Re-derives the mantle-bound heat flux from convection strength and
    /// folds the energy it carries over the elapsed years into the running
    /// total, which saturates at the integer ceiling.
    pub fn transfer_heat_to_mantle(&mut self, years: u64)
        requires
            old(self).convection_strength_milli <= MILLI_ONE,
        ensures
            final(self).heat_flux_to_mantle_uw_m2 == spec_heat_to_mantle_uw(
                old(self).convection_strength_milli as int,
            ),
            final(self).cumulative_heat_to_mantle_j == sat_u128(
                old(self).cumulative_heat_to_mantle_j + spec_heat_j_per_yr(
                    final(self).heat_flux_to_mantle_uw_m2 as int,
                ) * years,
            ),
            *final(self) == (OuterCore {
                heat_flux_to_mantle_uw_m2: final(self).heat_flux_to_mantle_uw_m2,
                cumulative_heat_to_mantle_j: final(self).cumulative_heat_to_mantle_j,
                ..*old(self)
            }),
            old(self).wf() ==> final(self).wf(),
    {
        let flux: u64 = (self.convection_strength_milli as u64) * 60_000_000;
        self.heat_flux_to_mantle_uw_m2 = flux;
        let per_yr: u128 = (flux as u128) * 31_536 / 1000;
        let span: u128 = years as u128;
        assert(per_yr * span <= u128::MAX) by (nonlinear_arith)
            requires
                per_yr <= 2_000_000_000_000,
                span <= u64::MAX,
        ;
        let total: u128 = per_yr * span;
        self.cumulative_heat_to_mantle_j = sat_add_u128(self.cumulative_heat_to_mantle_j, total);
    }

    /// The deterministic half of the reversal check: given the drawn value,
    /// flips the polarity exactly when the field is weak and the draw lands
    /// in the five percent window.
    pub fn apply_reversal(&mut self, draw: u32) -> (reversed: bool)
        ensures
            reversed == (old(self).magnetic_field_strength_milli < REVERSAL_FIELD_THRESHOLD_MILLI
                && draw % 100 < 5),
            *final(self) == if reversed {
                (OuterCore {
                    magnetic_polarity_normal: !old(self).magnetic_polarity_normal,
                    ..*old(self)
                })
            } else {
                *old(self)
            },
    {
        if self.magnetic_field_strength_milli < REVERSAL_FIELD_THRESHOLD_MILLI && draw % 100 < 5 {
            self.magnetic_polarity_normal = !self.magnetic_polarity_normal;
            true
        } else {
            false
        }
    }

    /// Draws from the random source and applies the reversal check; a strong
    /// field never reverses, and nothing but the polarity can change,
    /// whatever was drawn.
    pub fn maybe_trigger_reversal(&mut self) -> (reversed: bool)
        ensures
            reversed ==> old(self).magnetic_field_strength_milli < REVERSAL_FIELD_THRESHOLD_MILLI,
            *final(self) == if reversed {
                (OuterCore {
                    magnetic_polarity_normal: !old(self).magnetic_polarity_normal,
                    ..*old(self)
                })
            } else {
                *old(self)
            },
    {
        let draw: u32 = rand::random::<u32>();
        self.apply_reversal(draw)
    }

    /// The deterministic half of the anomaly check: given the drawn value,
    /// marks a heat anomaly exactly when convection is vigorous and the draw
    /// lands in the ten percent window.  The flag never clears.
    pub fn apply_heat_anomaly(&mut self, draw: u32) -> (generated: bool)
        ensures
            generated == (old(self).convection_strength_milli
                > ANOMALY_CONVECTION_THRESHOLD_MILLI && draw % 100 < 10),
            *final(self) == if generated {
                (OuterCore { has_heat_anomaly: true, ..*old(self) })
            } else {
                *old(self)
            },
            final(self).has_heat_anomaly == (old(self).has_heat_anomaly || generated),
    {
        if self.convection_strength_milli > ANOMALY_CONVECTION_THRESHOLD_MILLI && draw % 100
            < 10 {
            self.has_heat_anomaly = true;
            true
        } else {
            false
        }
    }

    /// Draws from the random source and applies the anomaly check; sluggish
    /// convection never generates one, an anomaly once present stays, and
    /// nothing but the flag can change, whatever was drawn.
    pub fn maybe_generate_heat_anomaly(&mut self) -> (generated: bool)
        ensures
            generated ==> old(self).convection_strength_milli
                > ANOMALY_CONVECTION_THRESHOLD_MILLI,
            *final(self) == if generated {
                (OuterCore { has_heat_anomaly: true, ..*old(self) })
            } else {
                *old(self)
            },
            old(self).has_heat_anomaly ==> final(self).has_heat_anomaly,
    {
        let draw: u32 = rand::random::<u32>();
        self.apply_heat_anomaly(draw)
    }

    /// One update: re-derives convection from the inner core's current heat
    /// flux, applies the enrichment gain and its possible damping, re-derives
    /// field strength and flow split, runs the two stochastic checks, and
    /// transfers heat to the mantle.
    pub fn update_dynamics(&mut self, inner_core: &InnerCore, years: u64) -> (events: CoreEvents)
        requires
            inner_core.wf(),
            old(self).wf(),
        ensures
            final(self).total_time_kyr == sat_u64(old(self).total_time_kyr + years as int / 1000),
            final(self).heat_flux_from_inner_uw_m2 == inner_core.heat_flux_uw_m2,
            final(self).light_elements_enrichment_milli_pct == clamp_int(
                old(self).light_elements_enrichment_milli_pct + spec_enrichment_delta_milli(
                    inner_core.crystallization_rate_um_yr as int,
                    years as int,
                ),
                0,
                MILLI_PCT_FULL as int,
            ),
            final(self).convection_strength_milli == spec_dampened_convection_milli(
                spec_convection_milli(inner_core.heat_flux_uw_m2 as int),
                final(self).light_elements_enrichment_milli_pct as int,
            ),
            final(self).magnetic_field_strength_milli == spec_magnetic_milli(
                final(self).convection_strength_milli as int,
                inner_core.magnetic_contribution_milli as int,
            ),
            final(self).toroidal_flow_milli == final(self).convection_strength_milli * 700
                / 1000,
            final(self).poloidal_flow_milli == final(self).convection_strength_milli * 300
                / 1000,
            final(self).heat_flux_to_mantle_uw_m2 == spec_heat_to_mantle_uw(
                final(self).convection_strength_milli as int,
            ),
            final(self).cumulative_heat_to_mantle_j == sat_u128(
                old(self).cumulative_heat_to_mantle_j + spec_heat_j_per_yr(
                    final(self).heat_flux_to_mantle_uw_m2 as int,
                ) * years,
            ),
            events.reversal_occurred ==> final(self).magnetic_field_strength_milli
                < REVERSAL_FIELD_THRESHOLD_MILLI,
            final(self).magnetic_polarity_normal == if events.reversal_occurred {
                !old(self).magnetic_polarity_normal
            } else {
                old(self).magnetic_polarity_normal
            },
            events.anomaly_generated ==> final(self).convection_strength_milli
                > ANOMALY_CONVECTION_THRESHOLD_MILLI,
            final(self).has_heat_anomaly == (old(self).has_heat_anomaly
                || events.anomaly_generated),
            *final(self) == (OuterCore {
                total_time_kyr: final(self).total_time_kyr,
                heat_flux_from_inner_uw_m2: final(self).heat_flux_from_inner_uw_m2,
                light_elements_enrichment_milli_pct:
                    final(self).light_elements_enrichment_milli_pct,
                convection_strength_milli: final(self).convection_strength_milli,
                magnetic_field_strength_milli: final(self).magnetic_field_strength_milli,
                toroidal_flow_milli: final(self).toroidal_flow_milli,
                poloidal_flow_milli: final(self).poloidal_flow_milli,
                heat_flux_to_mantle_uw_m2: final(self).heat_flux_to_mantle_uw_m2,
                cumulative_heat_to_mantle_j: final(self).cumulative_heat_to_mantle_j,
                magnetic_polarity_normal: final(self).magnetic_polarity_normal,
                has_heat_anomaly: final(self).has_heat_anomaly,
                ..*old(self)
            }),
            final(self).wf(),
    {
        self.total_time_kyr = sat_add_u64(self.total_time_kyr, years / 1000);

        self.heat_flux_from_inner_uw_m2 = inner_core.heat_flux_uw_m2;
        let conv64: u64 = self.heat_flux_from_inner_uw_m2 / 100_000_000;
        let mut conv: u32 = if conv64 > 1000 {
            1000
        } else {
            conv64 as u32
        };

        let rate: u128 = inner_core.crystallization_rate_um_yr as u128;
        let span: u128 = years as u128;
        assert(rate * span <= u128::MAX) by (nonlinear_arith)
            requires
                rate <= u32::MAX,
                span <= u64::MAX,
        ;
        let delta128: u128 = rate * span / 100_000;
        let delta: u32 = if delta128 > 1000 {
            1000
        } else {
            delta128 as u32
        };
        self.enrich_light_elements(delta as i64);

        if self.light_elements_enrichment_milli_pct > ENRICHMENT_DAMPING_THRESHOLD_MILLI_PCT {
            conv = ((conv as u64) * 950 / 1000) as u32;
        }
        self.convection_strength_milli = conv;

        let c64: u64 = conv as u64;
        let m64: u64 = inner_core.magnetic_contribution_milli as u64;
        assert(c64 * m64 <= 1_000_000) by (nonlinear_arith)
            requires
                c64 <= 1000,
                m64 <= 1000,
        ;
        self.magnetic_field_strength_milli = (c64 * m64 / 1000) as u32;
        self.toroidal_flow_milli = ((conv as u64) * 700 / 1000) as u32;
        self.poloidal_flow_milli = ((conv as u64) * 300 / 1000) as u32;

        let reversal_occurred = self.maybe_trigger_reversal();
        let anomaly_generated = self.maybe_generate_heat_anomaly();
        self.transfer_heat_to_mantle(years);

        CoreEvents { reversal_occurred, anomaly_generated }
    }
}

} // verus!
