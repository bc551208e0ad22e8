use earth::mantle::{Mantle, MantleComposition, Plate, HotSpot, LowerMantle};
use earth::crust::CrustKind;

fn quiet_plate() -> Plate {
    Plate {
        area_km2: 60_000_000,
        age_kyr: 50_000,
        velocity_um_yr: 30_000,
        motion_direction_millideg: 45_000,
        is_subducting: false,
        is_transform_boundary: false,
        shear_stress_kpa: 0,
        has_back_arc_spreading: false,
        back_arc_spreading_rate_um_yr: 0,
        volcanic_activity_milli: 300,
    }
}

#[test]
fn mantle_initial_assembly() {
    let m = Mantle::new();
    assert_eq!(m.lithosphere.thickness_km, 100);
    assert_eq!(m.lithosphere.composition, MantleComposition::PeridotiteRichUpperMantle);
    assert_eq!(m.asthenosphere.lateral_flow_rate_um_yr, 50_000);
    assert_eq!(m.asthenosphere.dominant_flow_direction_millideg, 90_000);
    assert_eq!(m.transition_zone.phase_change_depth_km, 410);
    assert_eq!(m.lower_mantle.deep_convection_strength_milli, 600);
    assert_eq!(m.lower_mantle.stored_slab_volume_km3, 0);
    assert_eq!(m.d_prime_prime.temperature_milli_c, 3_000_000);
    assert_eq!(m.d_prime_prime.hot_spot_count, 1);
    assert!(m.plates.is_empty());
    assert!(m.hot_spots.is_empty());
    assert_eq!(m.crust.kind, CrustKind::Continental);
    assert_eq!(m.crust.thickness_mm, 35_000_000);
}

#[test]
fn plate_motion_blends_velocity_and_rotates() {
    let mut p = quiet_plate();
    let (started, spread, back_arc, quake) = p.update_motion(60_000, 90_000);
    assert_eq!(p.velocity_um_yr, 63_000);
    assert_eq!(p.motion_direction_millideg, 49_500);
    assert_eq!(p.age_kyr, 50_100);
    assert!(!started);
    assert_eq!(spread, 0);
    assert_eq!(back_arc, 0);
    assert!(!quake);
    assert!(!p.is_subducting);
}

#[test]
fn old_plate_starts_subducting_exactly_once() {
    let mut p = quiet_plate();
    p.age_kyr = 99_950;
    let (started, _, _, _) = p.update_motion(60_000, 90_000);
    assert!(started);
    assert!(p.is_subducting);
    // Later updates keep the flag and no longer signal the transition,
    // whatever the motion parameters.
    let (started_again, _, _, _) = p.update_motion(0, 0);
    assert!(!started_again);
    assert!(p.is_subducting);
}

#[test]
fn young_plate_spreads_and_age_resets() {
    let mut p = quiet_plate();
    p.age_kyr = 10_000;
    let (_, spread, _, _) = p.update_motion(60_000, 90_000);
    assert_eq!(spread, 10_000);
    assert_eq!(p.area_km2, 60_010_000);
    assert_eq!(p.age_kyr, 0);
}

#[test]
fn spread_resets_any_age_to_zero() {
    let mut p = quiet_plate();
    p.age_kyr = 123_456;
    let added = p.spread(10_000);
    assert_eq!(added, 10_000);
    assert_eq!(p.age_kyr, 0);
    p.age_kyr = u64::MAX;
    p.spread(0);
    assert_eq!(p.age_kyr, 0);
}

#[test]
fn transform_fault_slips_over_the_threshold() {
    let mut p = quiet_plate();
    p.is_transform_boundary = true;
    p.shear_stress_kpa = 295_000;
    assert!(!p.simulate_transform());
    assert_eq!(p.shear_stress_kpa, 300_000);
    assert!(p.simulate_transform());
    assert_eq!(p.shear_stress_kpa, 0);
    let mut q = quiet_plate();
    q.shear_stress_kpa = 295_000;
    assert!(!q.simulate_transform());
    assert_eq!(q.shear_stress_kpa, 295_000);
}

#[test]
fn back_arc_spreading_grows_area() {
    let mut p = quiet_plate();
    p.has_back_arc_spreading = true;
    p.back_arc_spreading_rate_um_yr = 20_000;
    let added = p.simulate_back_arc_spreading();
    assert_eq!(added, 2_000);
    assert_eq!(p.area_km2, 60_002_000);
}

#[test]
fn subduction_recycles_one_percent() {
    let mut m = Mantle::new();
    let mut p = quiet_plate();
    p.area_km2 = 100_000_000;
    p.is_subducting = true;
    let recycled = p.subduct(&mut m.lower_mantle);
    assert_eq!(recycled, 1_000_000);
    assert_eq!(p.area_km2, 99_000_000);
    assert_eq!(m.lower_mantle.stored_slab_volume_km3, 1_000_000);
    assert_eq!(m.lower_mantle.deep_convection_strength_milli, 610);
    let mut q = quiet_plate();
    let nothing = q.subduct(&mut m.lower_mantle);
    assert_eq!(nothing, 0);
    assert_eq!(m.lower_mantle.stored_slab_volume_km3, 1_000_000);
}

#[test]
fn deep_convection_caps_at_one() {
    let mut lm = Mantle::new().lower_mantle;
    lm.deep_convection_strength_milli = 995;
    lm.mix_composition(10);
    assert_eq!(lm.deep_convection_strength_milli, 1000);
    lm.mix_composition(10);
    assert_eq!(lm.deep_convection_strength_milli, 1000);
}

#[test]
fn lateral_flow_follows_convection() {
    let mut m = Mantle::new();
    m.lower_mantle.update_lateral_flow();
    assert_eq!(m.lower_mantle.lateral_flow_rate_um_yr, 30_000);
    assert_eq!(m.lower_mantle.dominant_flow_direction_millideg, 61_800);
    let influence = m.lower_mantle.deep_convection_strength_milli;
    m.asthenosphere.update_lateral_flow(influence);
    assert_eq!(m.asthenosphere.lateral_flow_rate_um_yr, 60_000);
    assert_eq!(m.asthenosphere.dominant_flow_direction_millideg, 93_000);
    // The caps bind at full strength.
    let mut lm = LowerMantle { deep_convection_strength_milli: 1000, ..m.lower_mantle };
    lm.update_lateral_flow();
    assert_eq!(lm.lateral_flow_rate_um_yr, 50_000);
    m.asthenosphere.update_lateral_flow(5_000);
    assert_eq!(m.asthenosphere.lateral_flow_rate_um_yr, 200_000);
}

#[test]
fn boundary_layer_heat_exchange_moves_temperature() {
    let mut m = Mantle::new();
    // A net inflow of 0.02 megawatts warms by 0.16 degrees.
    m.d_prime_prime.transfer_heat(40_000_000_000, 20_000_000_000);
    assert_eq!(m.d_prime_prime.heat_flux_in_uw_m2, 40_000_000_000);
    assert_eq!(m.d_prime_prime.heat_flux_out_uw_m2, 20_000_000_000);
    assert_eq!(m.d_prime_prime.temperature_milli_c, 3_000_160);
    // The same net outflow cools by the same amount.
    m.d_prime_prime.transfer_heat(20_000_000_000, 40_000_000_000);
    assert_eq!(m.d_prime_prime.temperature_milli_c, 3_000_000);
}

#[test]
fn hot_spot_migrates_with_the_flow() {
    let mut h = HotSpot { lat_millideg: 0, lon_millideg: -155_000, surface_age_kyr: 1_000 };
    // Flow of 6 cm per year due east-in-latitude (sine of a quarter turn is
    // one, cosine zero) moves latitude by six tenths of a degree.
    h.migrate(60_000, 90_000);
    assert_eq!(h.lat_millideg, 600);
    assert_eq!(h.lon_millideg, -155_000);
    assert_eq!(h.surface_age_kyr, 1_100);
}

#[test]
fn hot_spot_latitude_clamps_and_longitude_wraps() {
    let mut h = HotSpot { lat_millideg: 89_900, lon_millideg: 179_900, surface_age_kyr: 0 };
    // A thirty-degree heading scales the flow by exactly one half on the
    // latitude axis.
    h.migrate(1_000_000, 30_000);
    assert_eq!(h.lat_millideg, 90_000);
    assert!(h.lon_millideg <= 180_000);
    let mut g = HotSpot { lat_millideg: -89_900, lon_millideg: 0, surface_age_kyr: 0 };
    g.migrate(1_000_000, 210_000);
    assert_eq!(g.lat_millideg, -90_000);
}

#[test]
fn mantle_step_runs_plates_crust_and_hot_spots() {
    let mut m = Mantle::new();
    m.plates.push(quiet_plate());
    m.hot_spots.push(HotSpot { lat_millideg: 0, lon_millideg: -155_000, surface_age_kyr: 1_000 });
    let report = m.update_advanced_dynamics(1_000_000);

    // Flow re-derivation happens before the plate pass.
    assert_eq!(m.asthenosphere.lateral_flow_rate_um_yr, 60_000);
    assert_eq!(m.asthenosphere.dominant_flow_direction_millideg, 93_000);
    assert_eq!(m.lower_mantle.lateral_flow_rate_um_yr, 30_000);

    // The plate blended the new flow with a tenth of its old velocity.
    assert_eq!(m.plates[0].velocity_um_yr, 63_000);
    assert_eq!(m.plates[0].age_kyr, 50_100);
    assert!(!m.plates[0].is_subducting);

    // The quiet plate deformed the crust by its velocity against the
    // activity factor, and erosion then removed its million-year share.
    assert_eq!(report.total_tectonic_deformation_mm, 31_500);
    assert_eq!(report.total_volcanic_growth_mm, 0);
    assert_eq!(report.erosion_mm, 100_000);
    assert_eq!(m.crust.thickness_mm, 35_000_000 + 31_500 - 100_000);
    assert_eq!(report.subduction_events, 0);
    assert_eq!(report.earthquake_events, 0);

    // The hot spot drifted with the re-derived flow.
    assert_eq!(m.hot_spots[0].surface_age_kyr, 1_100);
}

#[test]
fn mantle_step_aggregates_events() {
    let mut m = Mantle::new();
    let mut loud = quiet_plate();
    loud.area_km2 = 100_000_000;
    loud.age_kyr = 99_950;
    loud.is_transform_boundary = true;
    loud.shear_stress_kpa = 297_000;
    loud.has_back_arc_spreading = true;
    loud.back_arc_spreading_rate_um_yr = 20_000;
    loud.volcanic_activity_milli = 700;
    m.plates.push(loud);
    m.plates.push(quiet_plate());
    let report = m.update_advanced_dynamics(1_000_000);

    assert_eq!(report.subduction_events, 1);
    assert_eq!(report.earthquake_events, 1);
    assert_eq!(report.total_back_arc_area_km2, 2_000);
    assert_eq!(report.total_volcanic_growth_mm, 500);
    assert!(m.plates[0].is_subducting);
    assert_eq!(m.plates[0].shear_stress_kpa, 0);
    // One percent of the loud plate's area went into the lower mantle.
    assert_eq!(report.total_subduction_volume_km3, m.lower_mantle.stored_slab_volume_km3);
    assert_eq!(m.lower_mantle.deep_convection_strength_milli, 610);
    assert!(!m.plates[1].is_subducting);
}
