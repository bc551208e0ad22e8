//! The solid inner core: crystallization growth of the radius, with mass and
//! heat flux re-derived from it, plus clamped adjustments of the anisotropy,
//! asymmetry and magnetic-contribution factors.
//!
//! Units: radius in metres, temperature in degrees, heat flux in microwatts
//! per square metre, crystallization rate in micrometres per year, mass in
//! kilograms, age in thousands of years, rotation offset in thousandths of a
//! degree per year, latent heat in thousandths of a terajoule per year,
//! factors in thousandths.

use vstd::prelude::*;
use vstd::arithmetic::div_mod::lemma_div_is_ordered;
use vstd::arithmetic::mul::lemma_mul_inequality;
use crate::units::{sat_u64, sat_add_u64, clamp_int, clamp_add_u32, min_int, MILLI_ONE,
    MILLI_PCT_FULL};

verus! {

/// Pi scaled by a thousand million.
pub const PI_NANO: u128 = 3_141_592_653;

/// Fixed density of the solid core, in kilograms per cubic metre.
pub const INNER_CORE_DENSITY_KG_M3: u128 = 12_800;

/// Reference temperature of the liquid shell above, in degrees.
pub const OUTER_CORE_REFERENCE_TEMP_C: u32 = 4300;

/// Radius growth saturates at this ceiling (two million kilometres), which
/// keeps the derived mass within machine range.
pub const MAX_RADIUS_M: u64 = 2_000_000_000;

/// The radius never falls below one kilometre.
pub const MIN_RADIUS_M: u64 = 1_000;

/// The core temperature stays below this bound, in degrees.
pub const MAX_CORE_TEMPERATURE_C: u32 = 10_000;

#[derive(Clone, Copy, PartialEq, Eq, Structural, Debug)]
pub struct InnerCore {
    pub radius_m: u64,
    pub temperature_c: u32,
    pub pressure_gpa: u32,
    pub iron_milli_pct: u32,
    pub nickel_milli_pct: u32,
    pub other_elements_milli_pct: u32,
    pub heat_flux_uw_m2: u64,
    pub crystallization_rate_um_yr: u32,
    pub mass_kg: u128,
    pub age_kyr: u64,
    pub rotation_offset_millideg_yr: u32,
    pub magnetic_contribution_milli: u32,
    pub crystal_anisotropy_milli: u32,
    pub latent_heat_release_milli_tj_yr: u64,
    pub asymmetric_growth_milli: u32,
}

/// Mass of a sphere of the core's density: volume `4/3 pi r^3` times
/// density, evaluated in the fixed order the executable code uses.
pub open spec fn spec_mass_kg(r: int) -> int {
    let r3 = r * r * r;
    4 * r3 / 3 * (PI_NANO as int) / 1_000_000_000 * (INNER_CORE_DENSITY_KG_M3 as int)
}

/// Surface area of a sphere, in square metres.
pub open spec fn spec_area_m2(r: int) -> int {
    let r2 = r * r;
    4 * r2 * (PI_NANO as int) / 1_000_000_000
}

/// Conductive heat flux out of the core, in microwatts per square metre:
/// conductivity times the temperature excess over the liquid shell,
/// spread over the surface area.
pub open spec fn spec_heat_flux_uw(r: int, temperature_c: int) -> int {
    if temperature_c <= OUTER_CORE_REFERENCE_TEMP_C {
        0
    } else {
        1_000_000 * (temperature_c - OUTER_CORE_REFERENCE_TEMP_C) * 1_000_000 / spec_area_m2(r)
    }
}

/// Radius growth over a number of years, in metres.
pub open spec fn spec_growth_m(rate_um_yr: int, years: int) -> int {
    rate_um_yr * years / 1_000_000
}

/// The radius after growth, saturated at the model's ceiling.
pub open spec fn spec_next_radius_m(r: int, rate_um_yr: int, years: int) -> int {
    min_int(r + spec_growth_m(rate_um_yr, years), MAX_RADIUS_M as int)
}

/// The derived mass never shrinks as the radius grows.
pub proof fn lemma_mass_monotonic(r1: int, r2: int)
    requires
        0 <= r1 <= r2,
    ensures
        spec_mass_kg(r1) <= spec_mass_kg(r2),
{
    let c1 = r1 * r1 * r1;
    let c2 = r2 * r2 * r2;
    assert(c1 <= c2) by (nonlinear_arith)
        requires
            0 <= r1 <= r2,
            c1 == r1 * r1 * r1,
            c2 == r2 * r2 * r2,
    ;
    lemma_div_is_ordered(4 * c1, 4 * c2, 3);
    lemma_mul_inequality(4 * c1 / 3, 4 * c2 / 3, PI_NANO as int);
    lemma_div_is_ordered(
        4 * c1 / 3 * (PI_NANO as int),
        4 * c2 / 3 * (PI_NANO as int),
        1_000_000_000,
    );
    lemma_mul_inequality(
        4 * c1 / 3 * (PI_NANO as int) / 1_000_000_000,
        4 * c2 / 3 * (PI_NANO as int) / 1_000_000_000,
        INNER_CORE_DENSITY_KG_M3 as int,
    );
}

impl InnerCore {
    /// Bounds every operation preserves; the stored mass never exceeds the
    /// mass the current radius derives to, so growth can only raise it.
    pub open spec fn wf(self) -> bool {
        &&& MIN_RADIUS_M <= self.radius_m <= MAX_RADIUS_M
        &&& self.temperature_c <= MAX_CORE_TEMPERATURE_C
        &&& self.iron_milli_pct <= MILLI_PCT_FULL
        &&& self.nickel_milli_pct <= MILLI_PCT_FULL
        &&& self.other_elements_milli_pct <= MILLI_PCT_FULL
        &&& self.magnetic_contribution_milli <= MILLI_ONE
        &&& self.crystal_anisotropy_milli <= MILLI_ONE
        &&& self.asymmetric_growth_milli <= MILLI_ONE
        &&& self.mass_kg <= spec_mass_kg(self.radius_m as int)
    }

    /// The fixed starting state.
    pub open spec fn initial() -> InnerCore {
        InnerCore {
            radius_m: 1_221_000,
            temperature_c: 5_400,
            pressure_gpa: 330,
            iron_milli_pct: 80_000,
            nickel_milli_pct: 20_000,
            other_elements_milli_pct: 0,
            heat_flux_uw_m2: 50_000_000_000,
            crystallization_rate_um_yr: 1_000,
            mass_kg: 97_000_000_000_000_000_000_000,
            age_kyr: 1_000_000,
            rotation_offset_millideg_yr: 100,
            magnetic_contribution_milli: 900,
            crystal_anisotropy_milli: 500,
            latent_heat_release_milli_tj_yr: 50_000,
            asymmetric_growth_milli: 100,
        }
    }

    pub fn new() -> (c: InnerCore)
        ensures
            c == Self::initial(),
            c.wf(),
    {
        proof {
            assert(1_221_000int * 1_221_000 * 1_221_000 == 1_820_316_861_000_000_000)
                by (nonlinear_arith);
            assert(spec_mass_kg(1_221_000) == 97_599_045_574_820_219_443_200);
        }
        InnerCore {
            radius_m: 1_221_000,
            temperature_c: 5_400,
            pressure_gpa: 330,
            iron_milli_pct: 80_000,
            nickel_milli_pct: 20_000,
            other_elements_milli_pct: 0,
            heat_flux_uw_m2: 50_000_000_000,
            crystallization_rate_um_yr: 1_000,
            mass_kg: 97_000_000_000_000_000_000_000,
            age_kyr: 1_000_000,
            rotation_offset_millideg_yr: 100,
            magnetic_contribution_milli: 900,
            crystal_anisotropy_milli: 500,
            latent_heat_release_milli_tj_yr: 50_000,
            asymmetric_growth_milli: 100,
        }
    }

    /// Recomputes the mass from the current radius.
    fn update_mass(&mut self)
        requires
            old(self).radius_m <= MAX_RADIUS_M,
        ensures
            final(self).mass_kg == spec_mass_kg(old(self).radius_m as int),
            *final(self) == (InnerCore { mass_kg: final(self).mass_kg, ..*old(self) }),
    {
        let r: u128 = self.radius_m as u128;
        assert(r * r <= 4_000_000_000_000_000_000) by (nonlinear_arith)
            requires
                r <= 2_000_000_000,
        ;
        let r2: u128 = r * r;
        assert(r2 * r <= 8_000_000_000_000_000_000_000_000_000) by (nonlinear_arith)
            requires
                r2 <= 4_000_000_000_000_000_000,
                r <= 2_000_000_000,
        ;
        let r3: u128 = r2 * r;
        let v: u128 = 4 * r3 / 3;
        let w: u128 = v * PI_NANO;
        self.mass_kg = w / 1_000_000_000 * INNER_CORE_DENSITY_KG_M3;
    }

    /// Recomputes the heat flux from the current radius and temperature.
    fn update_heat_flux(&mut self)
        requires
            MIN_RADIUS_M <= old(self).radius_m <= MAX_RADIUS_M,
            old(self).temperature_c <= MAX_CORE_TEMPERATURE_C,
        ensures
            final(self).heat_flux_uw_m2 == spec_heat_flux_uw(
                old(self).radius_m as int,
                old(self).temperature_c as int,
            ),
            *final(self) == (InnerCore {
                heat_flux_uw_m2: final(self).heat_flux_uw_m2,
                ..*old(self)
            }),
    {
        if self.temperature_c <= OUTER_CORE_REFERENCE_TEMP_C {
            self.heat_flux_uw_m2 = 0;
        } else {
            let r: u128 = self.radius_m as u128;
            assert(1_000_000 <= r * r <= 4_000_000_000_000_000_000) by (nonlinear_arith)
                requires
                    1_000 <= r <= 2_000_000_000,
            ;
            let r2: u128 = r * r;
            let area: u128 = 4 * r2 * PI_NANO / 1_000_000_000;
            let delta: u128 = (self.temperature_c - OUTER_CORE_REFERENCE_TEMP_C) as u128;
            let num: u128 = 1_000_000 * delta * 1_000_000;
            let flux: u128 = num / area;
            assert(flux <= num) by (nonlinear_arith)
                requires
                    flux == num / area,
                    area >= 1,
                    num >= 0,
            ;
            self.heat_flux_uw_m2 = flux as u64;
        }
    }

    /// Advances the age, grows the radius by the crystallization rate over
    /// the elapsed years, re-derives mass and heat flux from the new radius,
    /// and re-derives the latent heat release from the rate.  The stored
    /// mass never shrinks.
    pub fn update_crystallization(&mut self, years: u64)
        requires
            old(self).wf(),
        ensures
            final(self).radius_m == spec_next_radius_m(
                old(self).radius_m as int,
                old(self).crystallization_rate_um_yr as int,
                years as int,
            ),
            final(self).age_kyr == sat_u64(old(self).age_kyr + years as int / 1000),
            final(self).mass_kg == spec_mass_kg(final(self).radius_m as int),
            final(self).heat_flux_uw_m2 == spec_heat_flux_uw(
                final(self).radius_m as int,
                old(self).temperature_c as int,
            ),
            final(self).latent_heat_release_milli_tj_yr == old(
                self,
            ).crystallization_rate_um_yr * 50,
            *final(self) == (InnerCore {
                radius_m: final(self).radius_m,
                age_kyr: final(self).age_kyr,
                mass_kg: final(self).mass_kg,
                heat_flux_uw_m2: final(self).heat_flux_uw_m2,
                latent_heat_release_milli_tj_yr: final(self).latent_heat_release_milli_tj_yr,
                ..*old(self)
            }),
            final(self).wf(),
            final(self).mass_kg >= old(self).mass_kg,
            final(self).radius_m >= old(self).radius_m,
    {
        self.age_kyr = sat_add_u64(self.age_kyr, years / 1000);

        let rate: u128 = self.crystallization_rate_um_yr as u128;
        let span: u128 = years as u128;
        assert(rate * span <= u128::MAX) by (nonlinear_arith)
            requires
                rate <= u32::MAX,
                span <= u64::MAX,
        ;
        let growth: u128 = rate * span / 1_000_000;
        let grown: u128 = self.radius_m as u128 + growth;
        self.radius_m = if grown > MAX_RADIUS_M as u128 {
            MAX_RADIUS_M
        } else {
            grown as u64
        };

        self.update_mass();
        self.update_heat_flux();

        self.latent_heat_release_milli_tj_yr = (self.crystallization_rate_um_yr as u64) * 50;

        proof {
            lemma_mass_monotonic(old(self).radius_m as int, self.radius_m as int);
        }
    }

    /// Shifts the crystal anisotropy factor, clamped into `[0, 1]`.
    pub fn update_anisotropy(&mut self, delta_milli: i64)
        ensures
            *final(self) == (InnerCore {
                crystal_anisotropy_milli: clamp_int(
                    old(self).crystal_anisotropy_milli + delta_milli,
                    0,
                    MILLI_ONE as int,
                ) as u32,
                ..*old(self)
            }),
            old(self).wf() ==> final(self).wf(),
    {
        self.crystal_anisotropy_milli = clamp_add_u32(
            self.crystal_anisotropy_milli,
            delta_milli,
            MILLI_ONE,
        );
    }

    /// Shifts the asymmetric growth factor, clamped into `[0, 1]`.
    pub fn adjust_asymmetry(&mut self, delta_milli: i64)
        ensures
            *final(self) == (InnerCore {
                asymmetric_growth_milli: clamp_int(
                    old(self).asymmetric_growth_milli + delta_milli,
                    0,
                    MILLI_ONE as int,
                ) as u32,
                ..*old(self)
            }),
            old(self).wf() ==> final(self).wf(),
    {
        self.asymmetric_growth_milli = clamp_add_u32(
            self.asymmetric_growth_milli,
            delta_milli,
            MILLI_ONE,
        );
    }

    /// Cumulative rotation offset over the elapsed years, in thousandths of
    /// a degree.
    pub fn cumulative_rotation(&self, years: u64) -> (r: u128)
        ensures
            r == self.rotation_offset_millideg_yr * years,
    {
        let offset: u128 = self.rotation_offset_millideg_yr as u128;
        let span: u128 = years as u128;
        assert(offset * span <= u128::MAX) by (nonlinear_arith)
            requires
                offset <= u32::MAX,
                span <= u64::MAX,
        ;
        offset * span
    }

    /// Shifts the magnetic contribution factor, clamped into `[0, 1]`.
    pub fn adjust_magnetic_contribution(&mut self, delta_milli: i64)
        ensures
            *final(self) == (InnerCore {
                magnetic_contribution_milli: clamp_int(
                    old(self).magnetic_contribution_milli + delta_milli,
                    0,
                    MILLI_ONE as int,
                ) as u32,
                ..*old(self)
            }),
            old(self).wf() ==> final(self).wf(),
    {
        self.magnetic_contribution_milli = clamp_add_u32(
            self.magnetic_contribution_milli,
            delta_milli,
            MILLI_ONE,
        );
    }

    /// Replaces the magnetic contribution factor, clamped into `[0, 1]`.
    pub fn reset_magnetic_contribution(&mut self, new_value_milli: u32)
        ensures
            *final(self) == (InnerCore {
                magnetic_contribution_milli: min_int(
                    new_value_milli as int,
                    MILLI_ONE as int,
                ) as u32,
                ..*old(self)
            }),
            old(self).wf() ==> final(self).wf(),
    {
        self.magnetic_contribution_milli = if new_value_milli > MILLI_ONE {
            MILLI_ONE
        } else {
            new_value_milli
        };
    }
}

} // verus!
