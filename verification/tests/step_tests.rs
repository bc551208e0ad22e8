use earth::inner_core::InnerCore;
use earth::outer_core::OuterCore;
use earth::mantle::{Mantle, Plate, HotSpot};
use earth::step::simulate_step;

fn demo_plate() -> Plate {
    Plate {
        area_km2: 100_000_000,
        age_kyr: 50_000,
        velocity_um_yr: 50_000,
        motion_direction_millideg: 90_000,
        is_subducting: false,
        is_transform_boundary: true,
        shear_stress_kpa: 0,
        has_back_arc_spreading: true,
        back_arc_spreading_rate_um_yr: 20_000,
        volcanic_activity_milli: 700,
    }
}

#[test]
fn one_step_threads_the_layers_in_order() {
    let mut inner = InnerCore::new();
    let mut outer = OuterCore::new(&inner);
    let mut mantle = Mantle::new();
    mantle.plates.push(demo_plate());
    mantle.hot_spots.push(HotSpot {
        lat_millideg: 20_000,
        lon_millideg: 120_000,
        surface_age_kyr: 500,
    });

    let report = simulate_step(&mut inner, &mut outer, &mut mantle, 10_000_000);

    // The inner core updated first, so the outer core saw the collapsed
    // heat flux of the grown sphere, not the starting constant.
    assert_eq!(inner.radius_m, 1_231_000);
    assert_eq!(inner.heat_flux_uw_m2, 57);
    assert_eq!(outer.heat_flux_from_inner_uw_m2, 57);
    assert_eq!(outer.convection_strength_milli, 0);
    assert_eq!(outer.heat_flux_to_mantle_uw_m2, 0);

    // The boundary layer received the freshly re-derived (zero) inflow
    // against the fixed outflow, cooling by 0.16 degrees.
    assert_eq!(mantle.d_prime_prime.heat_flux_in_uw_m2, 0);
    assert_eq!(mantle.d_prime_prime.heat_flux_out_uw_m2, 20_000_000_000);
    assert_eq!(mantle.d_prime_prime.temperature_milli_c, 3_000_000 - 160);

    // Sluggish convection cannot have generated an anomaly.
    assert!(!report.core.anomaly_generated);
    assert!(!outer.has_heat_anomaly);

    // The plate pass ran against the re-derived asthenosphere flow.
    assert_eq!(mantle.asthenosphere.lateral_flow_rate_um_yr, 60_000);
    assert_eq!(mantle.plates[0].velocity_um_yr, 65_000);
    assert_eq!(report.mantle.total_back_arc_area_km2, 2_000);
    assert_eq!(report.mantle.total_volcanic_growth_mm, 500);

    // Erosion ran once, after the plates.
    assert_eq!(report.mantle.erosion_mm, 1_000_000);

    // The hot spot drifted and aged by the fixed per-step amount.
    assert_eq!(mantle.hot_spots[0].surface_age_kyr, 600);
}

#[test]
fn steps_with_no_plates_or_hot_spots_still_erode() {
    let mut inner = InnerCore::new();
    let mut outer = OuterCore::new(&inner);
    let mut mantle = Mantle::new();
    let report = simulate_step(&mut inner, &mut outer, &mut mantle, 1_000_000);
    assert_eq!(report.mantle.subduction_events, 0);
    assert_eq!(report.mantle.total_tectonic_deformation_mm, 0);
    assert_eq!(report.mantle.erosion_mm, 100_000);
    assert_eq!(mantle.crust.thickness_mm, 34_900_000);
}

#[test]
fn subducting_flag_stays_set_across_steps() {
    let mut inner = InnerCore::new();
    let mut outer = OuterCore::new(&inner);
    let mut mantle = Mantle::new();
    let mut old_plate = demo_plate();
    old_plate.age_kyr = 99_950;
    mantle.plates.push(old_plate);
    simulate_step(&mut inner, &mut outer, &mut mantle, 1_000_000);
    assert!(mantle.plates[0].is_subducting);
    for _ in 0..5 {
        simulate_step(&mut inner, &mut outer, &mut mantle, 1_000_000);
        assert!(mantle.plates[0].is_subducting);
    }
}

#[test]
fn crust_bounds_hold_across_many_steps() {
    let mut inner = InnerCore::new();
    let mut outer = OuterCore::new(&inner);
    let mut mantle = Mantle::new();
    mantle.plates.push(demo_plate());
    mantle.plates.push(Plate { volcanic_activity_milli: 900, ..demo_plate() });
    for _ in 0..20 {
        simulate_step(&mut inner, &mut outer, &mut mantle, 10_000_000);
        assert!(5_000_000 <= mantle.crust.thickness_mm);
        assert!(mantle.crust.thickness_mm <= 70_000_000);
    }
}
