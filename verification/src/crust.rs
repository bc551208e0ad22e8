//! The surface shell: thickness bounded between a floor and a ceiling,
//! volcanic growth, erosion, tectonic deformation, and the surface-process
//! accumulators (sediment, isostasy, temperature, vegetation).
//!
//! Units: thickness and sediment in millimetres, erosion rate in micrometres
//! per year, age in thousands of years, temperature in thousandths of a
//! degree, isostasy in micrometres, factors in thousandths, percentages in
//! thousandths of a percent.

use vstd::prelude::*;
use crate::units::{sat_u64, sat_i64, clamp_int, sat_add_u64, sat_add_i64, clamp_add_u32,
    MILLI_ONE, MILLI_PCT_FULL};

verus! {

/// Thickness never falls below this floor (5 km), however far erosion goes.
pub const CRUST_MIN_THICKNESS_MM: u64 = 5_000_000;

/// Thickness never rises above this ceiling (70 km), however much material
/// volcanism and tectonic deformation add.
pub const CRUST_MAX_THICKNESS_MM: u64 = 70_000_000;

/// Sediment cover above this threshold (5 km) escalates the erosion rate.
pub const SEDIMENT_FEEDBACK_THRESHOLD_MM: u64 = 5_000_000;

/// The one way constructing a crust can fail.
#[derive(Clone, Copy, PartialEq, Eq, Structural, Debug)]
pub enum CrustError {
    InvalidCrustType,
}

/// The two supported initial variants.
#[derive(Clone, Copy, PartialEq, Eq, Structural, Debug)]
pub enum CrustKind {
    Continental,
    Oceanic,
}

/// The dominant rock of the crust.
#[derive(Clone, Copy, PartialEq, Eq, Structural, Debug)]
pub enum CompositionLabel {
    GraniteDominated,
    BasaltDominated,
    RejuvenatedBasalticMelt,
}

/// The characteristic mineral mix of the crust.
#[derive(Clone, Copy, PartialEq, Eq, Structural, Debug)]
pub enum MineralDistribution {
    SilicatesMinorIron,
    BasaltsSulfides,
}

#[derive(Clone, Copy, PartialEq, Eq, Structural, Debug)]
pub struct Crust {
    pub thickness_mm: u64,
    pub kind: CrustKind,
    pub age_kyr: u64,
    pub composition: CompositionLabel,
    pub average_density_kg_m3: u32,
    pub heat_flux_out_uw_m2: u64,
    pub tectonic_activity_milli: u32,
    pub volcanic_activity_milli: u32,
    pub erosion_rate_um_yr: u64,
    pub is_active_margin: bool,
    pub mineral_distribution: MineralDistribution,
    pub sediment_thickness_mm: u64,
    pub surface_temperature_milli_c: i64,
    pub surface_albedo_milli: u32,
    pub groundwater_milli_pct: u32,
    pub isostasy_adjustment_um: i64,
    pub vegetation_milli_pct: u32,
    pub surface_roughness_milli: u32,
}

/// Relies on str's PartialEq implementation: two string slices compare equal
/// exactly when their character sequences are equal.
#[verifier::external_body]
fn str_eq(a: &str, b: &str) -> (r: bool)
    ensures
        r == (a@ == b@),
{
    a == b
}

/// Thickness after adding material, held at the ceiling.
pub open spec fn spec_thickened(t: int, added: int) -> int {
    if t + added > CRUST_MAX_THICKNESS_MM {
        CRUST_MAX_THICKNESS_MM as int
    } else {
        t + added
    }
}

/// Thickness after removing material, held at the floor.
pub open spec fn spec_thinned(t: int, removed: int) -> int {
    if t - removed < CRUST_MIN_THICKNESS_MM {
        CRUST_MIN_THICKNESS_MM as int
    } else {
        t - removed
    }
}

/// One cubic kilometre of magma supply adds one millimetre of thickness.
pub open spec fn spec_volcanism_added_mm(magma_supply_km3: int) -> int {
    magma_supply_km3
}

/// Erosion over a number of years, in millimetres.
pub open spec fn spec_erosion_mm(rate_um_yr: int, years: int) -> int {
    rate_um_yr * years / 1000
}

/// Deformation from a plate's motion, in millimetres.
pub open spec fn spec_deformation_mm(velocity_um_yr: int, activity_milli: int) -> int {
    velocity_um_yr * activity_milli / 1000
}

impl Crust {
    /// Bounds every operation preserves: thickness inside its floor and
    /// ceiling, factors at most one, percentages at most one hundred.
    pub open spec fn wf(self) -> bool {
        &&& CRUST_MIN_THICKNESS_MM <= self.thickness_mm <= CRUST_MAX_THICKNESS_MM
        &&& self.tectonic_activity_milli <= MILLI_ONE
        &&& self.volcanic_activity_milli <= MILLI_ONE
        &&& self.surface_albedo_milli <= MILLI_ONE
        &&& self.surface_roughness_milli <= MILLI_ONE
        &&& self.groundwater_milli_pct <= MILLI_PCT_FULL
        &&& self.vegetation_milli_pct <= MILLI_PCT_FULL
    }

    /// The continental starting state: 35 km thick, granite-dominated.
    pub open spec fn continental_initial() -> Crust {
        Crust {
            thickness_mm: 35_000_000,
            kind: CrustKind::Continental,
            age_kyr: 1_000_000,
            composition: CompositionLabel::GraniteDominated,
            average_density_kg_m3: 2700,
            heat_flux_out_uw_m2: 60_000_000_000,
            tectonic_activity_milli: 500,
            volcanic_activity_milli: 200,
            erosion_rate_um_yr: 100,
            is_active_margin: false,
            mineral_distribution: MineralDistribution::SilicatesMinorIron,
            sediment_thickness_mm: 2_000_000,
            surface_temperature_milli_c: 15_000,
            surface_albedo_milli: 300,
            groundwater_milli_pct: 5_000,
            isostasy_adjustment_um: 0,
            vegetation_milli_pct: 50_000,
            surface_roughness_milli: 500,
        }
    }

    /// The oceanic starting state: 7 km thick, basalt-dominated.
    pub open spec fn oceanic_initial() -> Crust {
        Crust {
            thickness_mm: 7_000_000,
            kind: CrustKind::Oceanic,
            age_kyr: 50_000,
            composition: CompositionLabel::BasaltDominated,
            average_density_kg_m3: 2900,
            heat_flux_out_uw_m2: 80_000_000_000,
            tectonic_activity_milli: 700,
            volcanic_activity_milli: 600,
            erosion_rate_um_yr: 500,
            is_active_margin: true,
            mineral_distribution: MineralDistribution::BasaltsSulfides,
            sediment_thickness_mm: 500_000,
            surface_temperature_milli_c: 4_000,
            surface_albedo_milli: 100,
            groundwater_milli_pct: 1_000,
            isostasy_adjustment_um: 0,
            vegetation_milli_pct: 0,
            surface_roughness_milli: 800,
        }
    }

    /// Builds a crust of the named variant; any other name is rejected and
    /// no crust is produced.
    pub fn new(kind_name: &str) -> (r: Result<Crust, CrustError>)
        ensures
            r is Ok <==> (kind_name@ == "continental"@ || kind_name@ == "oceanic"@),
            kind_name@ == "continental"@ ==> r == Ok::<Crust, CrustError>(
                Self::continental_initial(),
            ),
            kind_name@ == "oceanic"@ ==> r == Ok::<Crust, CrustError>(Self::oceanic_initial()),
            r is Err ==> r == Err::<Crust, CrustError>(CrustError::InvalidCrustType),
            r is Ok ==> r->Ok_0.wf(),
    {
        proof {
            reveal_strlit("continental");
            reveal_strlit("oceanic");
            assert("continental"@.len() == 11);
            assert("oceanic"@.len() == 7);
            assert("continental"@ != "oceanic"@);
        }
        if str_eq(kind_name, "continental") {
            Ok(Crust {
                thickness_mm: 35_000_000,
                kind: CrustKind::Continental,
                age_kyr: 1_000_000,
                composition: CompositionLabel::GraniteDominated,
                average_density_kg_m3: 2700,
                heat_flux_out_uw_m2: 60_000_000_000,
                tectonic_activity_milli: 500,
                volcanic_activity_milli: 200,
                erosion_rate_um_yr: 100,
                is_active_margin: false,
                mineral_distribution: MineralDistribution::SilicatesMinorIron,
                sediment_thickness_mm: 2_000_000,
                surface_temperature_milli_c: 15_000,
                surface_albedo_milli: 300,
                groundwater_milli_pct: 5_000,
                isostasy_adjustment_um: 0,
                vegetation_milli_pct: 50_000,
                surface_roughness_milli: 500,
            })
        } else if str_eq(kind_name, "oceanic") {
            Ok(Crust {
                thickness_mm: 7_000_000,
                kind: CrustKind::Oceanic,
                age_kyr: 50_000,
                composition: CompositionLabel::BasaltDominated,
                average_density_kg_m3: 2900,
                heat_flux_out_uw_m2: 80_000_000_000,
                tectonic_activity_milli: 700,
                volcanic_activity_milli: 600,
                erosion_rate_um_yr: 500,
                is_active_margin: true,
                mineral_distribution: MineralDistribution::BasaltsSulfides,
                sediment_thickness_mm: 500_000,
                surface_temperature_milli_c: 4_000,
                surface_albedo_milli: 100,
                groundwater_milli_pct: 1_000,
                isostasy_adjustment_um: 0,
                vegetation_milli_pct: 0,
                surface_roughness_milli: 800,
            })
        } else {
            Err(CrustError::InvalidCrustType)
        }
    }

    /// Thickens the crust by the magma supply (held at the ceiling) and
    /// resets its age; returns the raw thickness gain the magma amounts to.
    pub fn grow_by_volcanism(&mut self, magma_supply_km3: u64) -> (added_mm: u64)
        requires
            old(self).wf(),
        ensures
            added_mm == spec_volcanism_added_mm(magma_supply_km3 as int),
            *final(self) == (Crust {
                thickness_mm: spec_thickened(
                    old(self).thickness_mm as int,
                    added_mm as int,
                ) as u64,
                age_kyr: 0,
                ..*old(self)
            }),
            final(self).wf(),
    {
        let t: u128 = self.thickness_mm as u128 + magma_supply_km3 as u128;
        self.thickness_mm = if t > CRUST_MAX_THICKNESS_MM as u128 {
            CRUST_MAX_THICKNESS_MM
        } else {
            t as u64
        };
        self.age_kyr = 0;
        magma_supply_km3
    }

    /// Thins the crust by rate times years (held at the floor); returns the
    /// raw erosion the rate amounts to over those years.
    pub fn erode(&mut self, years: u64) -> (eroded_mm: u128)
        requires
            old(self).wf(),
        ensures
            eroded_mm == spec_erosion_mm(old(self).erosion_rate_um_yr as int, years as int),
            *final(self) == (Crust {
                thickness_mm: spec_thinned(
                    old(self).thickness_mm as int,
                    eroded_mm as int,
                ) as u64,
                ..*old(self)
            }),
            final(self).wf(),
    {
        let rate: u128 = self.erosion_rate_um_yr as u128;
        let span: u128 = years as u128;
        assert(rate * span <= u128::MAX) by (nonlinear_arith)
            requires
                rate <= u64::MAX,
                span <= u64::MAX,
        ;
        let eroded: u128 = rate * span / 1000;
        self.thickness_mm = if eroded >= (self.thickness_mm - CRUST_MIN_THICKNESS_MM) as u128 {
            CRUST_MIN_THICKNESS_MM
        } else {
            self.thickness_mm - eroded as u64
        };
        eroded
    }

    /// Thickens the crust by the deformation the plate's motion causes
    /// (held at the ceiling); returns the raw deformation.
    pub fn update_tectonics(&mut self, plate_velocity_um_yr: u64) -> (deformation_mm: u64)
        requires
            old(self).wf(),
        ensures
            deformation_mm == spec_deformation_mm(
                plate_velocity_um_yr as int,
                old(self).tectonic_activity_milli as int,
            ),
            *final(self) == (Crust {
                thickness_mm: spec_thickened(
                    old(self).thickness_mm as int,
                    deformation_mm as int,
                ) as u64,
                ..*old(self)
            }),
            final(self).wf(),
    {
        let activity: u128 = self.tectonic_activity_milli as u128;
        let velocity: u128 = plate_velocity_um_yr as u128;
        assert(velocity * activity <= u128::MAX) by (nonlinear_arith)
            requires
                velocity <= u64::MAX,
                activity <= 1000,
        ;
        let d: u128 = velocity * activity / 1000;
        assert(d <= plate_velocity_um_yr) by (nonlinear_arith)
            requires
                d == plate_velocity_um_yr * activity / 1000,
                activity <= 1000,
        ;
        let deformation: u64 = d as u64;
        let t: u128 = self.thickness_mm as u128 + deformation as u128;
        self.thickness_mm = if t > CRUST_MAX_THICKNESS_MM as u128 {
            CRUST_MAX_THICKNESS_MM
        } else {
            t as u64
        };
        deformation
    }

    /// Resets the crust to a young, thin, freshly molten state.
    pub fn rejuvenate_subduction(&mut self)
        ensures
            *final(self) == (Crust {
                age_kyr: 0,
                thickness_mm: 7_000_000,
                composition: CompositionLabel::RejuvenatedBasalticMelt,
                ..*old(self)
            }),
    {
        self.age_kyr = 0;
        self.thickness_mm = 7_000_000;
        self.composition = CompositionLabel::RejuvenatedBasalticMelt;
    }

    /// Accumulates one tenth of the load change into the isostasy
    /// adjustment, saturating at the integer ceiling.
    pub fn adjust_isostasy(&mut self, load_change_mm: i64)
        ensures
            *final(self) == (Crust {
                isostasy_adjustment_um: sat_i64(
                    old(self).isostasy_adjustment_um + load_change_mm * 100,
                ) as i64,
                ..*old(self)
            }),
    {
        let added: i128 = (load_change_mm as i128) * 100;
        let s: i128 = self.isostasy_adjustment_um as i128 + added;
        self.isostasy_adjustment_um = if s > i64::MAX as i128 {
            i64::MAX
        } else if s < i64::MIN as i128 {
            i64::MIN
        } else {
            s as i64
        };
    }

    /// Shifts the surface temperature by the external forcing.
    pub fn update_surface_temperature(&mut self, forcing_milli_c: i64)
        ensures
            *final(self) == (Crust {
                surface_temperature_milli_c: sat_i64(
                    old(self).surface_temperature_milli_c + forcing_milli_c,
                ) as i64,
                ..*old(self)
            }),
    {
        self.surface_temperature_milli_c = sat_add_i64(
            self.surface_temperature_milli_c,
            forcing_milli_c,
        );
    }

    /// Adds to the sediment cover; sediment only ever accumulates.
    pub fn deposit_sediment(&mut self, added_mm: u64)
        ensures
            *final(self) == (Crust {
                sediment_thickness_mm: sat_u64(
                    old(self).sediment_thickness_mm + added_mm,
                ) as u64,
                ..*old(self)
            }),
            final(self).sediment_thickness_mm >= old(self).sediment_thickness_mm,
    {
        self.sediment_thickness_mm = sat_add_u64(self.sediment_thickness_mm, added_mm);
    }

    /// Escalates the erosion rate by a fifth once sediment cover exceeds the
    /// threshold; the escalation never reverses.
    pub fn simulate_erosion_feedback(&mut self) -> (escalated: bool)
        ensures
            escalated == (old(self).sediment_thickness_mm > SEDIMENT_FEEDBACK_THRESHOLD_MM),
            *final(self) == if escalated {
                (Crust {
                    erosion_rate_um_yr: sat_u64(
                        old(self).erosion_rate_um_yr * 12 / 10,
                    ) as u64,
                    ..*old(self)
                })
            } else {
                *old(self)
            },
            final(self).erosion_rate_um_yr >= old(self).erosion_rate_um_yr,
    {
        if self.sediment_thickness_mm > SEDIMENT_FEEDBACK_THRESHOLD_MM {
            let r: u128 = (self.erosion_rate_um_yr as u128) * 12 / 10;
            self.erosion_rate_um_yr = if r > u64::MAX as u128 {
                u64::MAX
            } else {
                r as u64
            };
            true
        } else {
            false
        }
    }

    /// Shifts vegetation coverage by the change, clamped into the percentage
    /// range whatever the magnitude or sign of the change.
    pub fn update_vegetation(&mut self, change_milli_pct: i64)
        ensures
            *final(self) == (Crust {
                vegetation_milli_pct: clamp_int(
                    old(self).vegetation_milli_pct + change_milli_pct,
                    0,
                    MILLI_PCT_FULL as int,
                ) as u32,
                ..*old(self)
            }),
            0 <= final(self).vegetation_milli_pct <= MILLI_PCT_FULL,
    {
        self.vegetation_milli_pct = clamp_add_u32(
            self.vegetation_milli_pct,
            change_milli_pct,
            MILLI_PCT_FULL,
        );
    }
}

} // verus!
