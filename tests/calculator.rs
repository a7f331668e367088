use edjc::jump_calculator::{JumpCalculator, StellarBoost, MAX_COORDINATE};
use edjc::types::{EdjcError, JumpResult, SystemCoordinates};

fn system(name: &str, x: i64, y: i64, z: i64, neutron: bool, white_dwarf: bool) -> SystemCoordinates {
    SystemCoordinates {
        name: name.to_string(),
        x,
        y,
        z,
        has_neutron_star: neutron,
        has_white_dwarf: white_dwarf,
    }
}

fn ly(milli: u64) -> f64 {
    milli as f64 / 1000.0
}

#[test]
fn jump_calculator_test_distance_calculation() {
    let sol = system("Sol", 0, 0, 0, false, false);
    let alpha_centauri = system("Alpha Centauri", 3030, 1390, 160, false, false);
    let distance = sol.distance_to(&alpha_centauri).unwrap();
    assert!((ly(distance) - 3.34).abs() < 0.1);
}

#[test]
fn edsm_test_distance_calculation() {
    let sol = system("Sol", 0, 0, 0, false, false);
    let alpha_centauri = system("Alpha Centauri", 3031, -94, 3156, false, false);
    let distance = sol.distance_to(&alpha_centauri).unwrap();
    assert!((ly(distance) - 4.3).abs() < 0.5);
}

#[test]
fn test_large_distance_calculation() {
    let sol = system("Sol", 0, 0, 0, false, false);
    let sagittarius_a = system("Sagittarius A*", 25219, -20906, 25899969, false, false);
    let distance = sol.distance_to(&sagittarius_a).unwrap();
    assert!((ly(distance) - 25900.0).abs() < 100.0);
}

#[test]
fn test_jump_calculation() {
    let calc = JumpCalculator::new();
    let jumps = calc.calculate_jumps_direct(100_000u128 * 100_000, 25_000);
    assert_eq!(jumps, 4);
    let jumps = calc.calculate_jumps_direct(99_000u128 * 99_000, 25_000);
    assert_eq!(jumps, 4);
}

#[test]
fn test_stellar_boost_multipliers() {
    assert_eq!(StellarBoost::Unboosted.multiplier() as f64 / 10.0, 1.0);
    assert_eq!(StellarBoost::WhiteDwarf.multiplier() as f64 / 10.0, 1.5);
    assert_eq!(StellarBoost::NeutronStar.multiplier() as f64 / 10.0, 4.0);
}

#[test]
fn test_supercharge_multipliers() {
    let neutron_system = system("Test", 0, 0, 0, true, false);
    let white_dwarf_system = system("Test", 0, 0, 0, false, true);
    let normal_system = system("Test", 0, 0, 0, false, false);
    assert_eq!(neutron_system.supercharge_multiplier() as f64 / 10.0, 4.0);
    assert_eq!(white_dwarf_system.supercharge_multiplier() as f64 / 10.0, 1.5);
    assert_eq!(normal_system.supercharge_multiplier() as f64 / 10.0, 1.0);
}

#[test]
fn test_jump_result_formatting() {
    let result = JumpResult {
        jumps: 5,
        total_distance: 123_450,
        route_type: "neutron highway".to_string(),
        from_system: "Sol".to_string(),
        to_system: "Colonia".to_string(),
    };
    let formatted = result.format("{jumps} jumps to {system} ({distance:.1}ly)");
    assert_eq!(formatted, "5 jumps to Colonia (123.5ly)");
}

#[test]
fn format_fills_every_placeholder_and_keeps_unknown_ones() {
    let result = JumpResult {
        jumps: 12,
        total_distance: 9_950,
        route_type: "direct".to_string(),
        from_system: "Sol".to_string(),
        to_system: "Achenar".to_string(),
    };
    let formatted = result.format("{from}->{to} {route} {jumps} {distance} {system} {unknown}");
    assert_eq!(formatted, "Sol->Achenar direct 12 10.0 Achenar {unknown}");
}

#[test]
fn same_point_route_is_empty() {
    let calc = JumpCalculator::new();
    let a = system("Here", 1_000, -2_000, 3_000, false, false);
    let b = system("There", 1_000, -2_000, 3_000, true, true);
    let r = calc.calculate_route(&a, &b, 30_000).unwrap();
    assert_eq!(r.jumps, 0);
    assert_eq!(r.total_distance, 0);
    assert_eq!(r.route_type, "direct");
}

#[test]
fn direct_jumps_are_monotone() {
    let calc = JumpCalculator::new();
    let short = calc.calculate_jumps_direct(50_000u128 * 50_000, 20_000);
    let long = calc.calculate_jumps_direct(51_000u128 * 51_000, 20_000);
    assert!(short <= long);
    let small_range = calc.calculate_jumps_direct(200_000u128 * 200_000, 10_000);
    let large_range = calc.calculate_jumps_direct(200_000u128 * 200_000, 40_000);
    assert_eq!(small_range, 20);
    assert_eq!(large_range, 5);
}

#[test]
fn route_is_idempotent() {
    let calc = JumpCalculator::new();
    let a = system("Sol", 0, 0, 0, false, false);
    let b = system("Colonia", -9_530_500, -910_280, 19_808_125, false, false);
    let r1 = calc.calculate_route(&a, &b, 35_000).unwrap();
    let r2 = calc.calculate_route(&a, &b, 35_000).unwrap();
    assert_eq!(r1.jumps, r2.jumps);
    assert_eq!(r1.total_distance, r2.total_distance);
    assert_eq!(r1.route_type, r2.route_type);
    assert_eq!(r1.from_system, r2.from_system);
    assert_eq!(r1.to_system, r2.to_system);
}

#[test]
fn scenario_hundred_light_years() {
    let calc = JumpCalculator::new();
    let a = system("A", 0, 0, 0, false, false);
    let b = system("B", 100_000, 0, 0, false, false);
    let r = calc.calculate_route(&a, &b, 25_000).unwrap();
    assert_eq!(r.total_distance, 100_000);
    assert_eq!(calc.calculate_jumps_direct(100_000u128 * 100_000, 25_000), 4);
    assert_eq!(r.jumps, 3);
    assert_eq!(r.route_type, "neutron highway");
    assert_eq!(r.from_system, "A");
    assert_eq!(r.to_system, "B");
}

#[test]
fn scenario_ninety_nine_light_years() {
    let calc = JumpCalculator::new();
    assert_eq!(calc.calculate_jumps_direct(99_000u128 * 99_000, 25_000), 4);
}

#[test]
fn scenario_neutron_destination() {
    let calc = JumpCalculator::new();
    let a = system("Origin", 0, 0, 0, false, false);
    let b = system("Pulsar", 0, 2_000_000, 0, true, false);
    let dsq = 2_000_000u128 * 2_000_000;
    assert_eq!(calc.calculate_jumps_with_boost(dsq, 35_000, StellarBoost::NeutronStar), 25);
    assert_eq!(calc.calculate_jumps_direct(dsq, 35_000), 58);
    assert_eq!(calc.calculate_jumps_with_boost(dsq, 35_000, StellarBoost::WhiteDwarf), 44);
    let r = calc.calculate_route(&a, &b, 35_000).unwrap();
    assert_eq!(r.jumps, 25);
    assert_eq!(r.route_type, "neutron highway");
    assert_eq!(r.total_distance, 2_000_000);
}

#[test]
fn direct_route_chosen_when_boosts_do_not_help() {
    // 12 ly at 10 ly: direct 2, neutron 1 + 1 + 1 = 3, white dwarf 1 + 1 + 1 = 3.
    let calc = JumpCalculator::new();
    let a = system("A", 0, 0, 0, false, false);
    let b = system("B", 12_000, 0, 0, false, false);
    let r = calc.calculate_route(&a, &b, 10_000).unwrap();
    assert_eq!(r.jumps, 2);
    assert_eq!(r.route_type, "direct");
    // 300 ly at 10 ly: direct 30, neutron 1 + 6 + 6 = 13, white dwarf 1 + 16 + 6 = 23.
    let c = system("C", 300_000, 0, 0, false, false);
    let r = calc.calculate_route(&a, &c, 10_000).unwrap();
    assert_eq!(r.jumps, 13);
    assert_eq!(r.route_type, "neutron highway");
}

#[test]
fn equal_counts_fall_back_to_direct() {
    // 30 ly at 10 ly: direct 3, neutron 1 + 1 + 1 = 3, white dwarf 1 + 2 + 1 = 4.
    let calc = JumpCalculator::new();
    let a = system("A", 0, 0, 0, false, false);
    let b = system("B", 30_000, 0, 0, false, false);
    let r = calc.calculate_route(&a, &b, 10_000).unwrap();
    assert_eq!(r.route_type, "direct");
    assert_eq!(r.jumps, 3);
}

#[test]
fn zero_range_is_invalid() {
    let calc = JumpCalculator::new();
    let a = system("A", 0, 0, 0, false, false);
    let b = system("B", 100_000, 0, 0, false, false);
    assert!(matches!(calc.calculate_route(&a, &b, 0), Err(EdjcError::InvalidJumpRange(0))));
    assert!(matches!(
        calc.calculate_route(&a, &b, -25_000),
        Err(EdjcError::InvalidJumpRange(-25_000))
    ));
}

#[test]
fn out_of_span_coordinates_are_invalid() {
    let calc = JumpCalculator::new();
    let a = system("A", 0, 0, 0, false, false);
    let far = system("Far", MAX_COORDINATE + 1, 0, 0, false, false);
    match calc.calculate_route(&a, &far, 25_000) {
        Err(EdjcError::InvalidCoordinates(name)) => assert_eq!(name, "Far"),
        other => panic!("unexpected {:?}", other),
    }
    assert!(a.distance_to(&far).is_err());
}

#[test]
fn route_details_estimates() {
    let calc = JumpCalculator::new();
    let a = system("A", 0, 0, 0, false, false);
    let b = system("B", 0, 0, 600_000, false, false);
    let d = calc.get_route_details(&a, &b, 40_000).unwrap();
    // direct 15; neutron 1 + 3 + 3 = 7; white dwarf 1 + 8 + 3 = 12.
    assert_eq!(d.result.jumps, 7);
    assert_eq!(d.estimated_time_minutes, 14);
    // 7 jumps * 2 t * (40 / 20) = 28 t.
    assert_eq!(d.estimated_fuel_usage, 28_000_000);
    assert!(d.can_use_neutron);
    assert!(d.can_use_white_dwarf);
}

#[test]
fn fuel_estimate_has_a_floor() {
    let calc = JumpCalculator::new();
    // 3 jumps * 2 t * max(5 / 20, 0.5) = 3 t.
    assert_eq!(calc.estimate_fuel_usage(3, 5_000), 3_000_000);
    assert!(!calc.estimate_neutron_availability(500_000));
    assert!(calc.estimate_neutron_availability(500_001));
    assert!(!calc.estimate_white_dwarf_availability(150_000));
    assert!(calc.estimate_white_dwarf_availability(150_001));
}

#[test]
fn can_supercharge_reads_both_flags() {
    assert!(system("N", 0, 0, 0, true, false).can_supercharge());
    assert!(system("W", 0, 0, 0, false, true).can_supercharge());
    assert!(!system("P", 0, 0, 0, false, false).can_supercharge());
}
