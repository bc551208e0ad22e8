use earth::crust::{Crust, CrustError, CrustKind, CompositionLabel, MineralDistribution};

#[test]
fn continental_initial_values() {
    let c = Crust::new("continental").unwrap();
    assert_eq!(c.thickness_mm, 35_000_000);
    assert_eq!(c.kind, CrustKind::Continental);
    assert_eq!(c.age_kyr, 1_000_000);
    assert_eq!(c.composition, CompositionLabel::GraniteDominated);
    assert_eq!(c.average_density_kg_m3, 2700);
    assert_eq!(c.heat_flux_out_uw_m2, 60_000_000_000);
    assert_eq!(c.tectonic_activity_milli, 500);
    assert_eq!(c.volcanic_activity_milli, 200);
    assert_eq!(c.erosion_rate_um_yr, 100);
    assert!(!c.is_active_margin);
    assert_eq!(c.mineral_distribution, MineralDistribution::SilicatesMinorIron);
    assert_eq!(c.sediment_thickness_mm, 2_000_000);
    assert_eq!(c.surface_temperature_milli_c, 15_000);
    assert_eq!(c.vegetation_milli_pct, 50_000);
}

#[test]
fn oceanic_initial_values() {
    let c = Crust::new("oceanic").unwrap();
    assert_eq!(c.thickness_mm, 7_000_000);
    assert_eq!(c.kind, CrustKind::Oceanic);
    assert_eq!(c.age_kyr, 50_000);
    assert_eq!(c.composition, CompositionLabel::BasaltDominated);
    assert_eq!(c.erosion_rate_um_yr, 500);
    assert!(c.is_active_margin);
    assert_eq!(c.vegetation_milli_pct, 0);
}

#[test]
fn invalid_crust_type_is_rejected() {
    let r = Crust::new("invalid");
    assert_eq!(r, Err(CrustError::InvalidCrustType));
    assert!(Crust::new("").is_err());
    assert!(Crust::new("Continental").is_err());
}

#[test]
fn erosion_scenario_million_years() {
    // 0.1 mm per year over a million years removes a tenth of a kilometre.
    let mut c = Crust::new("continental").unwrap();
    let eroded = c.erode(1_000_000);
    assert_eq!(eroded, 100_000);
    assert_eq!(c.thickness_mm, 34_900_000);
}

#[test]
fn erosion_stops_at_floor() {
    let mut c = Crust::new("oceanic").unwrap();
    let eroded = c.erode(10_000_000_000);
    assert_eq!(eroded, 5_000_000_000);
    assert_eq!(c.thickness_mm, 5_000_000);
}

#[test]
fn volcanism_grows_and_resets_age() {
    let mut c = Crust::new("continental").unwrap();
    let added = c.grow_by_volcanism(500);
    assert_eq!(added, 500);
    assert_eq!(c.thickness_mm, 35_000_500);
    assert_eq!(c.age_kyr, 0);
}

#[test]
fn volcanism_stops_at_ceiling() {
    let mut c = Crust::new("continental").unwrap();
    c.grow_by_volcanism(1_000_000_000);
    assert_eq!(c.thickness_mm, 70_000_000);
}

#[test]
fn tectonics_deforms_and_caps() {
    let mut c = Crust::new("continental").unwrap();
    // 5 cm per year against a 0.5 activity factor adds 25 metres.
    let d = c.update_tectonics(50_000);
    assert_eq!(d, 25_000);
    assert_eq!(c.thickness_mm, 35_025_000);
    let huge = c.update_tectonics(u64::MAX);
    assert_eq!(huge, u64::MAX / 2);
    assert_eq!(c.thickness_mm, 70_000_000);
}

#[test]
fn thickness_stays_bounded_through_any_sequence() {
    let mut c = Crust::new("oceanic").unwrap();
    let lo = 5_000_000;
    let hi = 70_000_000;
    c.grow_by_volcanism(u64::MAX);
    assert!(lo <= c.thickness_mm && c.thickness_mm <= hi);
    c.erode(u64::MAX);
    assert!(lo <= c.thickness_mm && c.thickness_mm <= hi);
    c.update_tectonics(u64::MAX);
    assert!(lo <= c.thickness_mm && c.thickness_mm <= hi);
    c.grow_by_volcanism(1);
    c.erode(0);
    c.update_tectonics(0);
    assert!(lo <= c.thickness_mm && c.thickness_mm <= hi);
}

#[test]
fn rejuvenation_resets_state() {
    let mut c = Crust::new("continental").unwrap();
    c.rejuvenate_subduction();
    assert_eq!(c.age_kyr, 0);
    assert_eq!(c.thickness_mm, 7_000_000);
    assert_eq!(c.composition, CompositionLabel::RejuvenatedBasalticMelt);
}

#[test]
fn isostasy_accumulates_a_tenth() {
    let mut c = Crust::new("continental").unwrap();
    c.adjust_isostasy(2_000);
    assert_eq!(c.isostasy_adjustment_um, 200_000);
    c.adjust_isostasy(-500);
    assert_eq!(c.isostasy_adjustment_um, 150_000);
}

#[test]
fn surface_temperature_shifts() {
    let mut c = Crust::new("oceanic").unwrap();
    c.update_surface_temperature(-6_500);
    assert_eq!(c.surface_temperature_milli_c, -2_500);
}

#[test]
fn sediment_only_accumulates() {
    let mut c = Crust::new("continental").unwrap();
    c.deposit_sediment(250_000);
    assert_eq!(c.sediment_thickness_mm, 2_250_000);
    c.deposit_sediment(u64::MAX);
    assert_eq!(c.sediment_thickness_mm, u64::MAX);
}

#[test]
fn erosion_feedback_escalates_once_over_threshold() {
    let mut c = Crust::new("continental").unwrap();
    assert!(!c.simulate_erosion_feedback());
    assert_eq!(c.erosion_rate_um_yr, 100);
    c.deposit_sediment(3_500_000);
    assert!(c.simulate_erosion_feedback());
    assert_eq!(c.erosion_rate_um_yr, 120);
    assert!(c.simulate_erosion_feedback());
    assert_eq!(c.erosion_rate_um_yr, 144);
}

#[test]
fn vegetation_clamps_for_any_magnitude() {
    let mut c = Crust::new("continental").unwrap();
    c.update_vegetation(2_000);
    assert_eq!(c.vegetation_milli_pct, 52_000);
    c.update_vegetation(i64::MAX);
    assert_eq!(c.vegetation_milli_pct, 100_000);
    c.update_vegetation(i64::MIN);
    assert_eq!(c.vegetation_milli_pct, 0);
    c.update_vegetation(-1);
    assert_eq!(c.vegetation_milli_pct, 0);
}
