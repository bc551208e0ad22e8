use earth::inner_core::InnerCore;
use earth::outer_core::OuterCore;

#[test]
fn inner_core_initial_values() {
    let c = InnerCore::new();
    assert_eq!(c.radius_m, 1_221_000);
    assert_eq!(c.temperature_c, 5_400);
    assert_eq!(c.pressure_gpa, 330);
    assert_eq!(c.iron_milli_pct, 80_000);
    assert_eq!(c.nickel_milli_pct, 20_000);
    assert_eq!(c.other_elements_milli_pct, 0);
    assert_eq!(c.heat_flux_uw_m2, 50_000_000_000);
    assert_eq!(c.crystallization_rate_um_yr, 1_000);
    assert_eq!(c.mass_kg, 97_000_000_000_000_000_000_000);
    assert_eq!(c.age_kyr, 1_000_000);
    assert_eq!(c.rotation_offset_millideg_yr, 100);
    assert_eq!(c.magnetic_contribution_milli, 900);
}

#[test]
fn crystallization_scenario_ten_million_years() {
    // At one millimetre per year, ten million years grow the radius by
    // exactly ten kilometres, and the mass is re-derived from the sphere
    // volume at the fixed density.
    let mut c = InnerCore::new();
    c.update_crystallization(10_000_000);
    assert_eq!(c.radius_m, 1_231_000);
    assert_eq!(c.mass_kg, 100_016_749_868_421_193_753_600);
    assert_eq!(c.age_kyr, 1_010_000);
    assert_eq!(c.heat_flux_uw_m2, 57);
    assert_eq!(c.latent_heat_release_milli_tj_yr, 50_000);
}

#[test]
fn mass_never_shrinks_across_updates() {
    let mut c = InnerCore::new();
    let m0 = c.mass_kg;
    c.update_crystallization(0);
    let m1 = c.mass_kg;
    assert!(m1 >= m0);
    c.update_crystallization(1_000_000);
    let m2 = c.mass_kg;
    assert!(m2 >= m1);
    c.update_crystallization(50_000_000);
    let m3 = c.mass_kg;
    assert!(m3 >= m2);
}

#[test]
fn factor_adjustments_clamp() {
    let mut c = InnerCore::new();
    c.update_anisotropy(700);
    assert_eq!(c.crystal_anisotropy_milli, 1000);
    c.update_anisotropy(-2_000);
    assert_eq!(c.crystal_anisotropy_milli, 0);
    c.adjust_asymmetry(i64::MAX);
    assert_eq!(c.asymmetric_growth_milli, 1000);
    c.adjust_magnetic_contribution(-850);
    assert_eq!(c.magnetic_contribution_milli, 50);
    c.reset_magnetic_contribution(5_000);
    assert_eq!(c.magnetic_contribution_milli, 1000);
    c.reset_magnetic_contribution(250);
    assert_eq!(c.magnetic_contribution_milli, 250);
}

#[test]
fn cumulative_rotation_is_offset_times_years() {
    let c = InnerCore::new();
    assert_eq!(c.cumulative_rotation(1_000), 100_000);
    assert_eq!(c.cumulative_rotation(0), 0);
}

#[test]
fn outer_core_derives_from_inner() {
    let inner = InnerCore::new();
    let o = OuterCore::new(&inner);
    assert_eq!(o.thickness_km, 2_200);
    assert_eq!(o.temperature_c, 4_500);
    assert_eq!(o.density_kg_m3, 11_000);
    // A flux of half the reference gives half convection strength.
    assert_eq!(o.convection_strength_milli, 500);
    assert_eq!(o.magnetic_field_strength_milli, 450);
    assert_eq!(o.toroidal_flow_milli, 350);
    assert_eq!(o.poloidal_flow_milli, 150);
    assert_eq!(o.heat_flux_from_inner_uw_m2, 50_000_000_000);
    assert_eq!(o.heat_flux_to_mantle_uw_m2, 40_000_000_000);
    assert!(o.magnetic_polarity_normal);
    assert!(!o.has_heat_anomaly);
    assert_eq!(o.cumulative_heat_to_mantle_j, 0);
}

#[test]
fn enrichment_clamps_for_any_delta() {
    let inner = InnerCore::new();
    let mut o = OuterCore::new(&inner);
    o.enrich_light_elements(1_500);
    assert_eq!(o.light_elements_enrichment_milli_pct, 1_500);
    o.enrich_light_elements(i64::MAX);
    assert_eq!(o.light_elements_enrichment_milli_pct, 100_000);
    o.enrich_light_elements(i64::MAX);
    assert_eq!(o.light_elements_enrichment_milli_pct, 100_000);
    o.enrich_light_elements(i64::MIN);
    assert_eq!(o.light_elements_enrichment_milli_pct, 0);
}

#[test]
fn heat_transfer_accumulates_energy() {
    let inner = InnerCore::new();
    let mut o = OuterCore::new(&inner);
    // Convection at one half drives 0.03 megawatts to the mantle, which
    // carries 946_080_000_000 joules a year.
    o.transfer_heat_to_mantle(1);
    assert_eq!(o.heat_flux_to_mantle_uw_m2, 30_000_000_000);
    assert_eq!(o.cumulative_heat_to_mantle_j, 946_080_000_000);
    o.transfer_heat_to_mantle(9);
    assert_eq!(o.cumulative_heat_to_mantle_j, 946_080_000_000 * 10);
}

#[test]
fn reversal_check_is_deterministic_given_the_draw() {
    let inner = InnerCore::new();
    let mut o = OuterCore::new(&inner);
    o.magnetic_field_strength_milli = 200;
    assert!(o.apply_reversal(4));
    assert!(!o.magnetic_polarity_normal);
    assert!(!o.apply_reversal(50));
    assert!(!o.magnetic_polarity_normal);
    o.magnetic_field_strength_milli = 450;
    assert!(!o.apply_reversal(4));
    assert!(!o.magnetic_polarity_normal);
}

#[test]
fn strong_field_never_reverses() {
    let inner = InnerCore::new();
    let mut o = OuterCore::new(&inner);
    o.magnetic_field_strength_milli = 450;
    for _ in 0..50 {
        assert!(!o.maybe_trigger_reversal());
        assert!(o.magnetic_polarity_normal);
    }
}

#[test]
fn heat_anomaly_is_sticky_and_needs_vigour() {
    let inner = InnerCore::new();
    let mut o = OuterCore::new(&inner);
    assert!(!o.apply_heat_anomaly(3));
    assert!(!o.has_heat_anomaly);
    o.convection_strength_milli = 900;
    assert!(o.apply_heat_anomaly(3));
    assert!(o.has_heat_anomaly);
    assert!(!o.apply_heat_anomaly(99));
    assert!(o.has_heat_anomaly);
    o.convection_strength_milli = 100;
    for _ in 0..50 {
        o.maybe_generate_heat_anomaly();
        assert!(o.has_heat_anomaly);
    }
}

#[test]
fn update_dynamics_reacts_to_current_inner_state() {
    let mut inner = InnerCore::new();
    inner.update_crystallization(10_000_000);
    let mut o = OuterCore::new(&InnerCore::new());
    let events = o.update_dynamics(&inner, 10_000_000);
    // The freshly derived flux is far below the reference, so convection,
    // field strength and the mantle-bound flux all collapse to zero.
    assert_eq!(o.heat_flux_from_inner_uw_m2, 57);
    assert_eq!(o.convection_strength_milli, 0);
    assert_eq!(o.magnetic_field_strength_milli, 0);
    assert_eq!(o.toroidal_flow_milli, 0);
    assert_eq!(o.poloidal_flow_milli, 0);
    assert_eq!(o.heat_flux_to_mantle_uw_m2, 0);
    assert_eq!(o.cumulative_heat_to_mantle_j, 0);
    // Crystallization enriched the liquid by the full capped percent.
    assert_eq!(o.light_elements_enrichment_milli_pct, 1_000);
    assert_eq!(o.total_time_kyr, 10_000);
    // Sluggish convection cannot generate an anomaly, whatever was drawn.
    assert!(!events.anomaly_generated);
    assert!(!o.has_heat_anomaly);
}
