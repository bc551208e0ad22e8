//! The mantle aggregate: five stacked layers, the plate and hot-spot
//! collections, and the owned crust, with the per-step orchestration that
//! threads lateral flow into plate motion, subduction into the lower
//! mantle, and plate activity into the crust.
//!
//! Units: areas in square kilometres, volumes in cubic kilometres,
//! velocities and flow rates in micrometres per year, directions and
//! coordinates in thousandths of a degree, stress in kilopascals, ages in
//! thousands of years, heat flux in microwatts per square metre, factors in
//! thousandths, percentages in thousandths of a percent.

use vstd::prelude::*;
use vstd::pervasive::unreached;
use crate::units::{sat_u64, sat_u32, sat_i64, clamp_int, min_int, sat_add_u64, sat_add_u32,
    sat_add_i64, MILLI_ONE};
use crate::trig::{spec_sin_milli, spec_cos_milli, sin_milli, cos_milli};
use crate::crust::{Crust, spec_thickened, spec_thinned, spec_erosion_mm, spec_deformation_mm,
    spec_volcanism_added_mm};

verus! {

/// A plate older than this starts subducting (100 million years).
pub const SUBDUCTION_AGE_KYR: u64 = 100_000;

/// A plate younger than this spreads (20 million years).
pub const SPREADING_AGE_KYR: u64 = 20_000;

/// Area gained by one spreading event.
pub const SPREADING_GROWTH_KM2: u64 = 10_000;

/// Shear stress gained per transform evaluation (5 MPa).
pub const TRANSFORM_STRESS_STEP_KPA: u32 = 5_000;

/// Shear stress above which a transform fault slips (300 MPa).
pub const TRANSFORM_SLIP_THRESHOLD_KPA: u32 = 300_000;

/// A plate more volcanically active than this triggers crust growth.
pub const VOLCANIC_TRIGGER_MILLI: u32 = 500;

/// Magma supplied to the crust by one volcanic trigger, in cubic kilometres.
pub const VOLCANIC_MAGMA_SUPPLY_KM3: u64 = 500;

/// The characteristic rock of a mantle layer.
#[derive(Clone, Copy, PartialEq, Eq, Structural, Debug)]
pub enum MantleComposition {
    PeridotiteRichUpperMantle,
    PartiallyMoltenPeridotite,
    HighPressureMineralPhases,
    BridgmaniteAndFerropericlase,
    UlvzMixture,
}

#[derive(Clone, Copy, PartialEq, Eq, Structural, Debug)]
pub struct Plate {
    pub area_km2: u64,
    pub age_kyr: u64,
    pub velocity_um_yr: u64,
    pub motion_direction_millideg: u32,
    pub is_subducting: bool,
    pub is_transform_boundary: bool,
    pub shear_stress_kpa: u32,
    pub has_back_arc_spreading: bool,
    pub back_arc_spreading_rate_um_yr: u64,
    pub volcanic_activity_milli: u32,
}

#[derive(Clone, Copy, PartialEq, Eq, Structural, Debug)]
pub struct HotSpot {
    pub lat_millideg: i64,
    pub lon_millideg: i64,
    pub surface_age_kyr: u64,
}

#[derive(Clone, Copy, PartialEq, Eq, Structural, Debug)]
pub struct Lithosphere {
    pub thickness_km: u32,
    pub temperature_c: u32,
    pub viscosity_pa_s: u128,
    pub rigidity_factor_milli: u32,
    pub heat_flux_in_uw_m2: u64,
    pub heat_flux_out_uw_m2: u64,
    pub composition: MantleComposition,
    pub tectonic_stress_kpa: u32,
}

#[derive(Clone, Copy, PartialEq, Eq, Structural, Debug)]
pub struct Asthenosphere {
    pub thickness_km: u32,
    pub temperature_c: u32,
    pub viscosity_pa_s: u128,
    pub partial_melt_milli_pct: u32,
    pub lubrication_factor_milli: u32,
    pub heat_flux_in_uw_m2: u64,
    pub heat_flux_out_uw_m2: u64,
    pub composition: MantleComposition,
    pub volatile_content_milli_pct: u32,
    pub lateral_flow_rate_um_yr: u64,
    pub dominant_flow_direction_millideg: u32,
}

#[derive(Clone, Copy, PartialEq, Eq, Structural, Debug)]
pub struct TransitionZone {
    pub thickness_km: u32,
    pub temperature_c: u32,
    pub viscosity_pa_s: u128,
    pub phase_change_depth_km: u32,
    pub heat_flux_in_uw_m2: u64,
    pub heat_flux_out_uw_m2: u64,
    pub composition: MantleComposition,
    pub water_storage_capacity_milli: u32,
}

#[derive(Clone, Copy, PartialEq, Eq, Structural, Debug)]
pub struct LowerMantle {
    pub thickness_km: u32,
    pub temperature_c: u32,
    pub viscosity_pa_s: u128,
    pub deep_convection_strength_milli: u32,
    pub heat_flux_in_uw_m2: u64,
    pub heat_flux_out_uw_m2: u64,
    pub composition: MantleComposition,
    pub stored_slab_volume_km3: u64,
    pub lateral_flow_rate_um_yr: u64,
    pub dominant_flow_direction_millideg: u32,
}

#[derive(Clone, Copy, PartialEq, Eq, Structural, Debug)]
pub struct DPrimePrimeLayer {
    pub thickness_km: u32,
    pub temperature_milli_c: i64,
    pub viscosity_pa_s: u128,
    pub plume_generation_potential_milli: u32,
    pub hot_spot_count: u32,
    pub heat_flux_in_uw_m2: u64,
    pub heat_flux_out_uw_m2: u64,
    pub composition: MantleComposition,
    pub chemical_heterogeneity_milli: u32,
    pub temporal_variability_milli: u32,
}

/// Velocity after exponential smoothing: the mantle flow plus a tenth of
/// the previous velocity, saturated at the integer ceiling.
pub open spec fn spec_next_velocity(v: int, flow: int) -> int {
    sat_u64(flow + v / 10)
}

/// Direction after rotating by a twentieth of the mantle direction, wrapped
/// to a full turn.
pub open spec fn spec_next_direction(d: int, mantle_dir: int) -> int {
    (d + mantle_dir / 20) % 360_000
}

/// Age after the fixed per-call advance of a tenth of a million years.
pub open spec fn spec_next_age(a: int) -> int {
    sat_u64(a + 100)
}

/// Whether one motion update makes this plate start subducting.
pub open spec fn spec_starts_subduction(p: Plate) -> bool {
    spec_next_age(p.age_kyr as int) > SUBDUCTION_AGE_KYR && !p.is_subducting
}

/// Whether one motion update makes this plate spread.
pub open spec fn spec_spreads(p: Plate) -> bool {
    spec_next_age(p.age_kyr as int) < SPREADING_AGE_KYR
}

/// Shear stress after one transform evaluation on a transform plate.
pub open spec fn spec_transform_stress(p: Plate) -> int {
    sat_u32(p.shear_stress_kpa + TRANSFORM_STRESS_STEP_KPA)
}

/// Whether one transform evaluation slips on this plate.
pub open spec fn spec_slips(p: Plate) -> bool {
    p.is_transform_boundary && spec_transform_stress(p) > TRANSFORM_SLIP_THRESHOLD_KPA
}

/// Area a back-arc evaluation adds on this plate.
pub open spec fn spec_back_arc_added(p: Plate) -> int {
    if p.has_back_arc_spreading {
        p.back_arc_spreading_rate_um_yr as int / 10
    } else {
        0
    }
}

/// The plate after one full motion update: smoothing, rotation, ageing,
/// the subduction and spreading transitions, the transform evaluation and
/// the back-arc evaluation.
pub open spec fn spec_plate_after_motion(p: Plate, flow_um_yr: u64, dir_millideg: u32) -> Plate {
    let age1 = spec_next_age(p.age_kyr as int);
    let spreads = age1 < SPREADING_AGE_KYR;
    let area1 = if spreads {
        sat_u64(p.area_km2 + SPREADING_GROWTH_KM2)
    } else {
        p.area_km2 as int
    };
    let area2 = if p.has_back_arc_spreading {
        sat_u64(area1 + spec_back_arc_added(p))
    } else {
        area1
    };
    let stress1 = if p.is_transform_boundary {
        if spec_transform_stress(p) > TRANSFORM_SLIP_THRESHOLD_KPA {
            0
        } else {
            spec_transform_stress(p)
        }
    } else {
        p.shear_stress_kpa as int
    };
    Plate {
        area_km2: area2 as u64,
        age_kyr: (if spreads { 0 } else { age1 }) as u64,
        velocity_um_yr: spec_next_velocity(p.velocity_um_yr as int, flow_um_yr as int) as u64,
        motion_direction_millideg: spec_next_direction(
            p.motion_direction_millideg as int,
            dir_millideg as int,
        ) as u32,
        is_subducting: p.is_subducting || age1 > SUBDUCTION_AGE_KYR,
        shear_stress_kpa: stress1 as u32,
        ..p
    }
}

/// The plate after recycling one percent of its area into the mantle.
pub open spec fn spec_plate_after_subduct(p: Plate) -> Plate {
    if p.is_subducting {
        Plate { area_km2: (p.area_km2 - p.area_km2 as int / 100) as u64, ..p }
    } else {
        p
    }
}

/// The lower mantle after mixing in one slab volume.
pub open spec fn spec_lm_after_mix(lm: LowerMantle, slab_km3: u64) -> LowerMantle {
    LowerMantle {
        stored_slab_volume_km3: sat_u64(lm.stored_slab_volume_km3 + slab_km3) as u64,
        deep_convection_strength_milli: min_int(
            lm.deep_convection_strength_milli + 10,
            MILLI_ONE as int,
        ) as u32,
        ..lm
    }
}

/// The lower mantle after re-deriving its lateral flow from its deep
/// convection strength.
pub open spec fn spec_lm_after_flow(lm: LowerMantle) -> LowerMantle {
    LowerMantle {
        lateral_flow_rate_um_yr: min_int(
            lm.deep_convection_strength_milli * 50,
            100_000,
        ) as u64,
        dominant_flow_direction_millideg: ((lm.dominant_flow_direction_millideg
            + lm.deep_convection_strength_milli * 3) % 360_000) as u32,
        ..lm
    }
}

/// The asthenosphere after re-deriving its lateral flow from the core
/// influence handed down.
pub open spec fn spec_asth_after_flow(a: Asthenosphere, core_influence_milli: u32)
    -> Asthenosphere {
    Asthenosphere {
        lateral_flow_rate_um_yr: min_int(core_influence_milli * 100, 200_000) as u64,
        dominant_flow_direction_millideg: ((a.dominant_flow_direction_millideg
            + core_influence_milli * 5) % 360_000) as u32,
        ..a
    }
}

/// The boundary layer after recording one heat exchange: temperature moves
/// by eight thousandths of a degree per microwatt of net flux, saturated at
/// the integer ceiling.
pub open spec fn spec_dpp_after_heat(d: DPrimePrimeLayer, in_uw: u64, out_uw: u64)
    -> DPrimePrimeLayer {
    let delta_mc = if in_uw >= out_uw {
        (in_uw - out_uw) * 8 / 1_000_000_000
    } else {
        -((out_uw - in_uw) * 8 / 1_000_000_000)
    };
    DPrimePrimeLayer {
        heat_flux_in_uw_m2: in_uw,
        heat_flux_out_uw_m2: out_uw,
        temperature_milli_c: sat_i64(d.temperature_milli_c + delta_mc) as i64,
        ..d
    }
}

/// Flow scaled by a sine or cosine in thousandths, with the sign applied
/// after an unsigned division.
pub open spec fn spec_signed_scaled(flow: int, s: int) -> int {
    if s >= 0 {
        flow * s / 100_000
    } else {
        -(flow * (-s) / 100_000)
    }
}

/// Longitude folded once across the date line.
pub open spec fn spec_wrap_lon(x: int) -> int {
    if x > 180_000 {
        x - 360_000
    } else if x < -180_000 {
        x + 360_000
    } else {
        x
    }
}

/// The hot spot after drifting with the mantle flow: the flow vector is
/// projected onto latitude and longitude, latitude is clamped to the poles,
/// longitude is folded once, and the surface age advances by its fixed
/// per-call amount.
pub open spec fn spec_hotspot_after_migrate(h: HotSpot, flow_um_yr: u64, dir_millideg: u32)
    -> HotSpot {
    HotSpot {
        lat_millideg: clamp_int(
            h.lat_millideg + spec_signed_scaled(
                flow_um_yr as int,
                spec_sin_milli(dir_millideg as int),
            ),
            -90_000,
            90_000,
        ) as i64,
        lon_millideg: sat_i64(
            spec_wrap_lon(
                h.lon_millideg + spec_signed_scaled(
                    flow_um_yr as int,
                    spec_cos_milli(dir_millideg as int),
                ),
            ),
        ) as i64,
        surface_age_kyr: sat_u64(h.surface_age_kyr + 100) as u64,
    }
}

impl Plate {
    /// One motion update driven by the mantle's lateral flow; returns
    /// whether subduction started, the area gained by spreading, the area
    /// gained by back-arc spreading, and whether a transform slip occurred.
    /// Once the subducting flag is set, no later update clears it.
    pub fn update_motion(&mut self, mantle_flow_rate_um_yr: u64, mantle_direction_millideg: u32)
        -> (r: (bool, u64, u64, bool))
        ensures
            *final(self) == spec_plate_after_motion(
                *old(self),
                mantle_flow_rate_um_yr,
                mantle_direction_millideg,
            ),
            r.0 == spec_starts_subduction(*old(self)),
            r.1 == if spec_spreads(*old(self)) { SPREADING_GROWTH_KM2 as int } else { 0 },
            r.2 == spec_back_arc_added(*old(self)),
            r.3 == spec_slips(*old(self)),
            old(self).is_subducting ==> final(self).is_subducting,
    {
        self.velocity_um_yr = sat_add_u64(mantle_flow_rate_um_yr, self.velocity_um_yr / 10);
        let dir: u64 = ((self.motion_direction_millideg as u64)
            + ((mantle_direction_millideg / 20) as u64)) % 360_000;
        self.motion_direction_millideg = dir as u32;
        self.age_kyr = sat_add_u64(self.age_kyr, 100);

        let mut started_subduction = false;
        if self.age_kyr > SUBDUCTION_AGE_KYR && !self.is_subducting {
            self.is_subducting = true;
            started_subduction = true;
        }

        let mut spread_area: u64 = 0;
        if self.age_kyr < SPREADING_AGE_KYR {
            spread_area = self.spread(SPREADING_GROWTH_KM2);
        }

        let earthquake_occurred = self.simulate_transform();
        let back_arc_area = self.simulate_back_arc_spreading();

        (started_subduction, spread_area, back_arc_area, earthquake_occurred)
    }

    /// Recycles one percent of the area into the lower mantle when the plate
    /// is subducting; otherwise changes nothing and recycles nothing.
    pub fn subduct(&mut self, lower_mantle: &mut LowerMantle) -> (recycled_km3: u64)
        ensures
            recycled_km3 == if old(self).is_subducting {
                old(self).area_km2 as int / 100
            } else {
                0
            },
            *final(self) == spec_plate_after_subduct(*old(self)),
            *final(lower_mantle) == if old(self).is_subducting {
                spec_lm_after_mix(*old(lower_mantle), (old(self).area_km2 / 100) as u64)
            } else {
                *old(lower_mantle)
            },
    {
        if self.is_subducting {
            let recycled: u64 = self.area_km2 / 100;
            lower_mantle.mix_composition(recycled);
            self.area_km2 = self.area_km2 - recycled;
            recycled
        } else {
            0
        }
    }

    /// Grows the area by the given rate and resets the age to exactly zero,
    /// whatever it was; returns the growth.
    pub fn spread(&mut self, growth_rate_km2: u64) -> (added_km2: u64)
        ensures
            added_km2 == growth_rate_km2,
            *final(self) == (Plate {
                area_km2: sat_u64(old(self).area_km2 + growth_rate_km2) as u64,
                age_kyr: 0,
                ..*old(self)
            }),
            final(self).age_kyr == 0,
    {
        self.area_km2 = sat_add_u64(self.area_km2, growth_rate_km2);
        self.age_kyr = 0;
        growth_rate_km2
    }

    /// On a transform-boundary plate, accumulates shear stress and slips
    /// (resetting the stress) once it passes the threshold; on any other
    /// plate, changes nothing.
    pub fn simulate_transform(&mut self) -> (slipped: bool)
        ensures
            slipped == spec_slips(*old(self)),
            *final(self) == (Plate {
                shear_stress_kpa: (if old(self).is_transform_boundary {
                    if spec_transform_stress(*old(self)) > TRANSFORM_SLIP_THRESHOLD_KPA {
                        0int
                    } else {
                        spec_transform_stress(*old(self))
                    }
                } else {
                    old(self).shear_stress_kpa as int
                }) as u32,
                ..*old(self)
            }),
    {
        if self.is_transform_boundary {
            self.shear_stress_kpa = sat_add_u32(
                self.shear_stress_kpa,
                TRANSFORM_STRESS_STEP_KPA,
            );
            if self.shear_stress_kpa > TRANSFORM_SLIP_THRESHOLD_KPA {
                self.shear_stress_kpa = 0;
                true
            } else {
                false
            }
        } else {
            false
        }
    }

    /// On a plate with back-arc spreading, grows the area by the spreading
    /// rate's contribution and returns it; on any other plate, changes
    /// nothing and returns zero.
    pub fn simulate_back_arc_spreading(&mut self) -> (added_km2: u64)
        ensures
            added_km2 == spec_back_arc_added(*old(self)),
            *final(self) == (Plate {
                area_km2: (if old(self).has_back_arc_spreading {
                    sat_u64(old(self).area_km2 + spec_back_arc_added(*old(self)))
                } else {
                    old(self).area_km2 as int
                }) as u64,
                ..*old(self)
            }),
    {
        if self.has_back_arc_spreading {
            let added: u64 = self.back_arc_spreading_rate_um_yr / 10;
            self.area_km2 = sat_add_u64(self.area_km2, added);
            added
        } else {
            0
        }
    }
}

/// Flow scaled by a sine or cosine in thousandths.
fn signed_scaled(flow_um_yr: u64, s: i64) -> (r: i64)
    requires
        -1000 <= s <= 1000,
    ensures
        r == spec_signed_scaled(flow_um_yr as int, s as int),
{
    if s >= 0 {
        let su: u128 = s as u128;
        let f: u128 = flow_um_yr as u128;
        assert(f * su / 100_000 <= u64::MAX as int / 100 + 1) by (nonlinear_arith)
            requires
                f <= u64::MAX,
                su <= 1000,
        ;
        (f * su / 100_000) as i64
    } else {
        let su: u128 = (-s) as u128;
        let f: u128 = flow_um_yr as u128;
        assert(f * su / 100_000 <= u64::MAX as int / 100 + 1) by (nonlinear_arith)
            requires
                f <= u64::MAX,
                su <= 1000,
        ;
        -((f * su / 100_000) as i64)
    }
}

impl HotSpot {
    /// Drifts with the mantle flow; latitude stays clamped between the
    /// poles and longitude is folded once across the date line.
    pub fn migrate(&mut self, mantle_flow_rate_um_yr: u64, flow_direction_millideg: u32)
        ensures
            *final(self) == spec_hotspot_after_migrate(
                *old(self),
                mantle_flow_rate_um_yr,
                flow_direction_millideg,
            ),
            -90_000 <= final(self).lat_millideg <= 90_000,
    {
        let s = sin_milli(flow_direction_millideg);
        let c = cos_milli(flow_direction_millideg);

        let dlat = signed_scaled(mantle_flow_rate_um_yr, s);
        let lat1: i128 = self.lat_millideg as i128 + dlat as i128;
        self.lat_millideg = if lat1 > 90_000 {
            90_000
        } else if lat1 < -90_000 {
            -90_000
        } else {
            lat1 as i64
        };

        let dlon = signed_scaled(mantle_flow_rate_um_yr, c);
        let lon1: i128 = self.lon_millideg as i128 + dlon as i128;
        let lon2: i128 = if lon1 > 180_000 {
            lon1 - 360_000
        } else if lon1 < -180_000 {
            lon1 + 360_000
        } else {
            lon1
        };
        self.lon_millideg = if lon2 > i64::MAX as i128 {
            i64::MAX
        } else if lon2 < i64::MIN as i128 {
            i64::MIN
        } else {
            lon2 as i64
        };

        self.surface_age_kyr = sat_add_u64(self.surface_age_kyr, 100);
    }
}

impl LowerMantle {
    /// Stores a subducted slab volume and strengthens deep convection by a
    /// hundredth, capped at one.
    pub fn mix_composition(&mut self, slab_input_km3: u64)
        ensures
            *final(self) == spec_lm_after_mix(*old(self), slab_input_km3),
    {
        self.stored_slab_volume_km3 = sat_add_u64(self.stored_slab_volume_km3, slab_input_km3);
        self.deep_convection_strength_milli = if self.deep_convection_strength_milli > 990 {
            MILLI_ONE
        } else {
            self.deep_convection_strength_milli + 10
        };
    }

    /// Re-derives the lateral flow rate (capped at 10 cm per year) and
    /// rotates the flow direction, both from deep convection strength.
    pub fn update_lateral_flow(&mut self)
        ensures
            *final(self) == spec_lm_after_flow(*old(self)),
    {
        let rate: u64 = (self.deep_convection_strength_milli as u64) * 50;
        self.lateral_flow_rate_um_yr = if rate > 100_000 {
            100_000
        } else {
            rate
        };
        let dir: u64 = ((self.dominant_flow_direction_millideg as u64)
            + (self.deep_convection_strength_milli as u64) * 3) % 360_000;
        self.dominant_flow_direction_millideg = dir as u32;
    }
}

impl Asthenosphere {
    /// Re-derives the lateral flow rate (capped at 20 cm per year) and
    /// rotates the flow direction, both from the influence handed down by
    /// the lower mantle.
    pub fn update_lateral_flow(&mut self, core_influence_milli: u32)
        ensures
            *final(self) == spec_asth_after_flow(*old(self), core_influence_milli),
    {
        let rate: u64 = (core_influence_milli as u64) * 100;
        self.lateral_flow_rate_um_yr = if rate > 200_000 {
            200_000
        } else {
            rate
        };
        let dir: u64 = ((self.dominant_flow_direction_millideg as u64)
            + (core_influence_milli as u64) * 5) % 360_000;
        self.dominant_flow_direction_millideg = dir as u32;
    }
}

impl DPrimePrimeLayer {
    /// Records one heat exchange across the boundary and moves the
    /// temperature by a fixed multiple of the net flux.
    pub fn transfer_heat(&mut self, incoming_flux_uw_m2: u64, outgoing_flux_uw_m2: u64)
        ensures
            *final(self) == spec_dpp_after_heat(
                *old(self),
                incoming_flux_uw_m2,
                outgoing_flux_uw_m2,
            ),
    {
        self.heat_flux_in_uw_m2 = incoming_flux_uw_m2;
        self.heat_flux_out_uw_m2 = outgoing_flux_uw_m2;
        if incoming_flux_uw_m2 >= outgoing_flux_uw_m2 {
            let diff: u128 = (incoming_flux_uw_m2 - outgoing_flux_uw_m2) as u128;
            let delta: u128 = diff * 8 / 1_000_000_000;
            self.temperature_milli_c = sat_add_i64(self.temperature_milli_c, delta as i64);
        } else {
            let diff: u128 = (outgoing_flux_uw_m2 - incoming_flux_uw_m2) as u128;
            let delta: u128 = diff * 8 / 1_000_000_000;
            self.temperature_milli_c = sat_add_i64(self.temperature_milli_c, -(delta as i64));
        }
    }
}

/// What one mantle step reported: event counts and the area, volume and
/// thickness totals the plates and erosion produced.
#[derive(Clone, Copy, PartialEq, Eq, Structural, Debug)]
pub struct MantleReport {
    pub subduction_events: u64,
    pub earthquake_events: u64,
    pub total_spread_area_km2: u64,
    pub total_back_arc_area_km2: u64,
    pub total_subduction_volume_km3: u64,
    pub total_volcanic_growth_mm: u64,
    pub total_tectonic_deformation_mm: u64,
    pub erosion_mm: u128,
}

pub open spec fn spec_empty_report() -> MantleReport {
    MantleReport {
        subduction_events: 0,
        earthquake_events: 0,
        total_spread_area_km2: 0,
        total_back_arc_area_km2: 0,
        total_subduction_volume_km3: 0,
        total_volcanic_growth_mm: 0,
        total_tectonic_deformation_mm: 0,
        erosion_mm: 0,
    }
}

/// The crust after one volcanic growth event.
pub open spec fn spec_crust_after_volcanism(c: Crust, magma_km3: u64) -> Crust {
    Crust {
        thickness_mm: spec_thickened(
            c.thickness_mm as int,
            spec_volcanism_added_mm(magma_km3 as int),
        ) as u64,
        age_kyr: 0,
        ..c
    }
}

/// The crust after absorbing one plate's tectonic deformation.
pub open spec fn spec_crust_after_tectonics(c: Crust, velocity_um_yr: u64) -> Crust {
    Crust {
        thickness_mm: spec_thickened(
            c.thickness_mm as int,
            spec_deformation_mm(velocity_um_yr as int, c.tectonic_activity_milli as int),
        ) as u64,
        ..c
    }
}

/// What one plate does to the crust, the lower mantle and the running
/// report: motion, subduction into the mantle, a possible volcanic trigger,
/// and tectonic deformation.
pub open spec fn spec_plate_phase(
    state: (Crust, LowerMantle, MantleReport),
    p: Plate,
    flow_um_yr: u64,
    dir_millideg: u32,
) -> (Crust, LowerMantle, MantleReport) {
    let p1 = spec_plate_after_motion(p, flow_um_yr, dir_millideg);
    let recycled = if p1.is_subducting { p1.area_km2 as int / 100 } else { 0 };
    let lm1 = if p1.is_subducting {
        spec_lm_after_mix(state.1, (p1.area_km2 / 100) as u64)
    } else {
        state.1
    };
    let p2 = spec_plate_after_subduct(p1);
    let volcanic = p2.volcanic_activity_milli > VOLCANIC_TRIGGER_MILLI;
    let c1 = if volcanic {
        spec_crust_after_volcanism(state.0, VOLCANIC_MAGMA_SUPPLY_KM3)
    } else {
        state.0
    };
    let deformation = spec_deformation_mm(
        p2.velocity_um_yr as int,
        c1.tectonic_activity_milli as int,
    );
    let c2 = spec_crust_after_tectonics(c1, p2.velocity_um_yr);
    let r = state.2;
    let r1 = MantleReport {
        subduction_events: sat_u64(
            r.subduction_events + if spec_starts_subduction(p) { 1int } else { 0 },
        ) as u64,
        earthquake_events: sat_u64(
            r.earthquake_events + if spec_slips(p) { 1int } else { 0 },
        ) as u64,
        total_spread_area_km2: sat_u64(
            r.total_spread_area_km2 + if spec_spreads(p) {
                SPREADING_GROWTH_KM2 as int
            } else {
                0
            },
        ) as u64,
        total_back_arc_area_km2: sat_u64(
            r.total_back_arc_area_km2 + spec_back_arc_added(p),
        ) as u64,
        total_subduction_volume_km3: sat_u64(r.total_subduction_volume_km3 + recycled) as u64,
        total_volcanic_growth_mm: sat_u64(
            r.total_volcanic_growth_mm + if volcanic {
                spec_volcanism_added_mm(VOLCANIC_MAGMA_SUPPLY_KM3 as int)
            } else {
                0
            },
        ) as u64,
        total_tectonic_deformation_mm: sat_u64(
            r.total_tectonic_deformation_mm + deformation,
        ) as u64,
        erosion_mm: r.erosion_mm,
    };
    (c2, lm1, r1)
}

/// The crust, lower mantle and report after the first `n` plates have been
/// processed in order.
pub open spec fn spec_plates_phase(
    init: (Crust, LowerMantle, MantleReport),
    plates: Seq<Plate>,
    n: int,
    flow_um_yr: u64,
    dir_millideg: u32,
) -> (Crust, LowerMantle, MantleReport)
    decreases n,
{
    if n <= 0 {
        init
    } else {
        spec_plate_phase(
            spec_plates_phase(init, plates, n - 1, flow_um_yr, dir_millideg),
            plates[n - 1],
            flow_um_yr,
            dir_millideg,
        )
    }
}

pub struct Mantle {
    pub lithosphere: Lithosphere,
    pub asthenosphere: Asthenosphere,
    pub transition_zone: TransitionZone,
    pub lower_mantle: LowerMantle,
    pub d_prime_prime: DPrimePrimeLayer,
    pub plates: Vec<Plate>,
    pub hot_spots: Vec<HotSpot>,
    pub crust: Crust,
}

pub open spec fn spec_initial_lithosphere() -> Lithosphere {
    Lithosphere {
        thickness_km: 100,
        temperature_c: 500,
        viscosity_pa_s: 10_000_000_000_000_000_000_000,
        rigidity_factor_milli: 900,
        heat_flux_in_uw_m2: 50_000_000_000,
        heat_flux_out_uw_m2: 40_000_000_000,
        composition: MantleComposition::PeridotiteRichUpperMantle,
        tectonic_stress_kpa: 50_000,
    }
}

pub open spec fn spec_initial_asthenosphere() -> Asthenosphere {
    Asthenosphere {
        thickness_km: 600,
        temperature_c: 1300,
        viscosity_pa_s: 10_000_000_000_000_000_000,
        partial_melt_milli_pct: 2_000,
        lubrication_factor_milli: 800,
        heat_flux_in_uw_m2: 40_000_000_000,
        heat_flux_out_uw_m2: 30_000_000_000,
        composition: MantleComposition::PartiallyMoltenPeridotite,
        volatile_content_milli_pct: 500,
        lateral_flow_rate_um_yr: 50_000,
        dominant_flow_direction_millideg: 90_000,
    }
}

pub open spec fn spec_initial_transition_zone() -> TransitionZone {
    TransitionZone {
        thickness_km: 250,
        temperature_c: 1600,
        viscosity_pa_s: 1_000_000_000_000_000_000_000,
        phase_change_depth_km: 410,
        heat_flux_in_uw_m2: 30_000_000_000,
        heat_flux_out_uw_m2: 20_000_000_000,
        composition: MantleComposition::HighPressureMineralPhases,
        water_storage_capacity_milli: 1_000,
    }
}

pub open spec fn spec_initial_lower_mantle() -> LowerMantle {
    LowerMantle {
        thickness_km: 2200,
        temperature_c: 2500,
        viscosity_pa_s: 100_000_000_000_000_000_000_000,
        deep_convection_strength_milli: 600,
        heat_flux_in_uw_m2: 20_000_000_000,
        heat_flux_out_uw_m2: 15_000_000_000,
        composition: MantleComposition::BridgmaniteAndFerropericlase,
        stored_slab_volume_km3: 0,
        lateral_flow_rate_um_yr: 20_000,
        dominant_flow_direction_millideg: 60_000,
    }
}

pub open spec fn spec_initial_d_prime_prime() -> DPrimePrimeLayer {
    DPrimePrimeLayer {
        thickness_km: 200,
        temperature_milli_c: 3_000_000,
        viscosity_pa_s: 10_000_000_000_000_000_000_000,
        plume_generation_potential_milli: 700,
        hot_spot_count: 1,
        heat_flux_in_uw_m2: 15_000_000_000,
        heat_flux_out_uw_m2: 20_000_000_000,
        composition: MantleComposition::UlvzMixture,
        chemical_heterogeneity_milli: 300,
        temporal_variability_milli: 500,
    }
}

impl Mantle {
    /// Assembles the five layers with their fixed starting constants, an
    /// empty plate and hot-spot collection, and a continental crust.
    pub fn new() -> (m: Mantle)
        ensures
            m.lithosphere == spec_initial_lithosphere(),
            m.asthenosphere == spec_initial_asthenosphere(),
            m.transition_zone == spec_initial_transition_zone(),
            m.lower_mantle == spec_initial_lower_mantle(),
            m.d_prime_prime == spec_initial_d_prime_prime(),
            m.plates@.len() == 0,
            m.hot_spots@.len() == 0,
            m.crust == Crust::continental_initial(),
            m.crust.wf(),
    {
        let crust = match Crust::new("continental") {
            Ok(c) => c,
            Err(_) => unreached(),
        };
        Mantle {
            lithosphere: Lithosphere {
                thickness_km: 100,
                temperature_c: 500,
                viscosity_pa_s: 10_000_000_000_000_000_000_000,
                rigidity_factor_milli: 900,
                heat_flux_in_uw_m2: 50_000_000_000,
                heat_flux_out_uw_m2: 40_000_000_000,
                composition: MantleComposition::PeridotiteRichUpperMantle,
                tectonic_stress_kpa: 50_000,
            },
            asthenosphere: Asthenosphere {
                thickness_km: 600,
                temperature_c: 1300,
                viscosity_pa_s: 10_000_000_000_000_000_000,
                partial_melt_milli_pct: 2_000,
                lubrication_factor_milli: 800,
                heat_flux_in_uw_m2: 40_000_000_000,
                heat_flux_out_uw_m2: 30_000_000_000,
                composition: MantleComposition::PartiallyMoltenPeridotite,
                volatile_content_milli_pct: 500,
                lateral_flow_rate_um_yr: 50_000,
                dominant_flow_direction_millideg: 90_000,
            },
            transition_zone: TransitionZone {
                thickness_km: 250,
                temperature_c: 1600,
                viscosity_pa_s: 1_000_000_000_000_000_000_000,
                phase_change_depth_km: 410,
                heat_flux_in_uw_m2: 30_000_000_000,
                heat_flux_out_uw_m2: 20_000_000_000,
                composition: MantleComposition::HighPressureMineralPhases,
                water_storage_capacity_milli: 1_000,
            },
            lower_mantle: LowerMantle {
                thickness_km: 2200,
                temperature_c: 2500,
                viscosity_pa_s: 100_000_000_000_000_000_000_000,
                deep_convection_strength_milli: 600,
                heat_flux_in_uw_m2: 20_000_000_000,
                heat_flux_out_uw_m2: 15_000_000_000,
                composition: MantleComposition::BridgmaniteAndFerropericlase,
                stored_slab_volume_km3: 0,
                lateral_flow_rate_um_yr: 20_000,
                dominant_flow_direction_millideg: 60_000,
            },
            d_prime_prime: DPrimePrimeLayer {
                thickness_km: 200,
                temperature_milli_c: 3_000_000,
                viscosity_pa_s: 10_000_000_000_000_000_000_000,
                plume_generation_potential_milli: 700,
                hot_spot_count: 1,
                heat_flux_in_uw_m2: 15_000_000_000,
                heat_flux_out_uw_m2: 20_000_000_000,
                composition: MantleComposition::UlvzMixture,
                chemical_heterogeneity_milli: 300,
                temporal_variability_milli: 500,
            },
            plates: Vec::new(),
            hot_spots: Vec::new(),
            crust,
        }
    }

    /// The lateral flow rate the plates and hot spots see this step: the
    /// asthenosphere's, re-derived from the lower mantle's deep convection.
    pub open spec fn spec_step_flow_um_yr(m: Mantle) -> u64 {
        min_int(m.lower_mantle.deep_convection_strength_milli * 100, 200_000) as u64
    }

    /// The flow direction the plates and hot spots see this step.
    pub open spec fn spec_step_dir_millideg(m: Mantle) -> u32 {
        ((m.asthenosphere.dominant_flow_direction_millideg
            + m.lower_mantle.deep_convection_strength_milli * 5) % 360_000) as u32
    }

    /// The crust, lower mantle and report after the whole plate pass.
    pub open spec fn spec_plates_fold(m: Mantle) -> (Crust, LowerMantle, MantleReport) {
        spec_plates_phase(
            (m.crust, spec_lm_after_flow(m.lower_mantle), spec_empty_report()),
            m.plates@,
            m.plates@.len() as int,
            Self::spec_step_flow_um_yr(m),
            Self::spec_step_dir_millideg(m),
        )
    }

    /// One mantle step: re-derives the lower mantle's and asthenosphere's
    /// lateral flow, runs every plate in stored order (motion, subduction
    /// into the lower mantle, a possible volcanic trigger, tectonic
    /// deformation of the crust), erodes the crust once, and migrates every
    /// hot spot; returns the aggregated report.
    pub fn update_advanced_dynamics(&mut self, years: u64) -> (report: MantleReport)
        requires
            old(self).crust.wf(),
        ensures
            final(self).lithosphere == old(self).lithosphere,
            final(self).transition_zone == old(self).transition_zone,
            final(self).d_prime_prime == old(self).d_prime_prime,
            final(self).asthenosphere == spec_asth_after_flow(
                old(self).asthenosphere,
                old(self).lower_mantle.deep_convection_strength_milli,
            ),
            final(self).lower_mantle == Self::spec_plates_fold(*old(self)).1,
            final(self).plates@.len() == old(self).plates@.len(),
            forall|i: int|
                0 <= i < old(self).plates@.len() ==> final(self).plates@[i]
                    == spec_plate_after_subduct(
                    spec_plate_after_motion(
                        old(self).plates@[i],
                        Self::spec_step_flow_um_yr(*old(self)),
                        Self::spec_step_dir_millideg(*old(self)),
                    ),
                ),
            forall|i: int|
                0 <= i < old(self).plates@.len() ==> (old(self).plates@[i].is_subducting
                    ==> final(self).plates@[i].is_subducting),
            final(self).hot_spots@.len() == old(self).hot_spots@.len(),
            forall|i: int|
                0 <= i < old(self).hot_spots@.len() ==> final(self).hot_spots@[i]
                    == spec_hotspot_after_migrate(
                    old(self).hot_spots@[i],
                    Self::spec_step_flow_um_yr(*old(self)),
                    Self::spec_step_dir_millideg(*old(self)),
                ),
            final(self).crust == (Crust {
                thickness_mm: spec_thinned(
                    Self::spec_plates_fold(*old(self)).0.thickness_mm as int,
                    spec_erosion_mm(
                        Self::spec_plates_fold(*old(self)).0.erosion_rate_um_yr as int,
                        years as int,
                    ),
                ) as u64,
                ..Self::spec_plates_fold(*old(self)).0
            }),
            report == (MantleReport {
                erosion_mm: spec_erosion_mm(
                    Self::spec_plates_fold(*old(self)).0.erosion_rate_um_yr as int,
                    years as int,
                ) as u128,
                ..Self::spec_plates_fold(*old(self)).2
            }),
            final(self).crust.wf(),
    {
        self.lower_mantle.update_lateral_flow();
        let influence: u32 = self.lower_mantle.deep_convection_strength_milli;
        self.asthenosphere.update_lateral_flow(influence);
        let flow: u64 = self.asthenosphere.lateral_flow_rate_um_yr;
        let dir: u32 = self.asthenosphere.dominant_flow_direction_millideg;

        let mut report = MantleReport {
            subduction_events: 0,
            earthquake_events: 0,
            total_spread_area_km2: 0,
            total_back_arc_area_km2: 0,
            total_subduction_volume_km3: 0,
            total_volcanic_growth_mm: 0,
            total_tectonic_deformation_mm: 0,
            erosion_mm: 0,
        };
        let ghost init = (
            old(self).crust,
            spec_lm_after_flow(old(self).lower_mantle),
            spec_empty_report(),
        );
        let n = self.plates.len();
        for i in 0..n
            invariant
                n == old(self).plates@.len(),
                self.plates@.len() == n,
                flow == Self::spec_step_flow_um_yr(*old(self)),
                dir == Self::spec_step_dir_millideg(*old(self)),
                init == (
                    old(self).crust,
                    spec_lm_after_flow(old(self).lower_mantle),
                    spec_empty_report(),
                ),
                self.lithosphere == old(self).lithosphere,
                self.transition_zone == old(self).transition_zone,
                self.d_prime_prime == old(self).d_prime_prime,
                self.asthenosphere == spec_asth_after_flow(
                    old(self).asthenosphere,
                    old(self).lower_mantle.deep_convection_strength_milli,
                ),
                self.hot_spots@ == old(self).hot_spots@,
                forall|j: int|
                    0 <= j < i ==> self.plates@[j] == spec_plate_after_subduct(
                        spec_plate_after_motion(old(self).plates@[j], flow, dir),
                    ),
                forall|j: int| i <= j < n ==> self.plates@[j] == old(self).plates@[j],
                self.crust == spec_plates_phase(init, old(self).plates@, i as int, flow, dir).0,
                self.lower_mantle == spec_plates_phase(
                    init,
                    old(self).plates@,
                    i as int,
                    flow,
                    dir,
                ).1,
                report == spec_plates_phase(init, old(self).plates@, i as int, flow, dir).2,
                self.crust.wf(),
        {
            let mut p = self.plates[i];
            let (started_subduction, spread_area, back_arc_area, earthquake_occurred) =
                p.update_motion(flow, dir);
            let subduction_volume = p.subduct(&mut self.lower_mantle);

            report.subduction_events = sat_add_u64(
                report.subduction_events,
                if started_subduction { 1 } else { 0 },
            );
            report.earthquake_events = sat_add_u64(
                report.earthquake_events,
                if earthquake_occurred { 1 } else { 0 },
            );
            report.total_spread_area_km2 = sat_add_u64(
                report.total_spread_area_km2,
                spread_area,
            );
            report.total_back_arc_area_km2 = sat_add_u64(
                report.total_back_arc_area_km2,
                back_arc_area,
            );
            report.total_subduction_volume_km3 = sat_add_u64(
                report.total_subduction_volume_km3,
                subduction_volume,
            );

            if p.volcanic_activity_milli > VOLCANIC_TRIGGER_MILLI {
                let grown = self.crust.grow_by_volcanism(VOLCANIC_MAGMA_SUPPLY_KM3);
                report.total_volcanic_growth_mm = sat_add_u64(
                    report.total_volcanic_growth_mm,
                    grown,
                );
            }
            let deformation = self.crust.update_tectonics(p.velocity_um_yr);
            report.total_tectonic_deformation_mm = sat_add_u64(
                report.total_tectonic_deformation_mm,
                deformation,
            );

            self.plates[i] = p;
        }

        let eroded = self.crust.erode(years);
        report.erosion_mm = eroded;

        let ghost mid = *self;
        let ghost report_mid = report;
        let m = self.hot_spots.len();
        for j in 0..m
            invariant
                m == old(self).hot_spots@.len(),
                self.hot_spots@.len() == m,
                flow == Self::spec_step_flow_um_yr(*old(self)),
                dir == Self::spec_step_dir_millideg(*old(self)),
                self.lithosphere == mid.lithosphere,
                self.transition_zone == mid.transition_zone,
                self.d_prime_prime == mid.d_prime_prime,
                self.asthenosphere == mid.asthenosphere,
                self.lower_mantle == mid.lower_mantle,
                self.crust == mid.crust,
                self.plates@ == mid.plates@,
                report == report_mid,
                mid.hot_spots@ == old(self).hot_spots@,
                forall|k: int|
                    0 <= k < j ==> self.hot_spots@[k] == spec_hotspot_after_migrate(
                        old(self).hot_spots@[k],
                        flow,
                        dir,
                    ),
                forall|k: int| j <= k < m ==> self.hot_spots@[k] == old(self).hot_spots@[k],
        {
            let mut h = self.hot_spots[j];
            h.migrate(flow, dir);
            self.hot_spots[j] = h;
        }

        report
    }
}

} // verus!
