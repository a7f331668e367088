use edjc::config::{get_config_path, validate_config, Config, ShipConfig};
use edjc::edsm::{
    classify_star, commander_cache_key, coordinates_from_response, location_from_response,
    system_cache_key, EdsmClient, EdsmCommanderResponse, EdsmCoordinates, EdsmStar,
    EdsmSystemResponse, Lookup,
};
use edjc::types::{EdjcError, SecurityLevel, StarInfo, SystemCoordinates};

fn star(star_type: Option<&str>, sub_type: Option<&str>) -> Option<EdsmStar> {
    Some(EdsmStar {
        star_type: star_type.map(|s| s.to_string()),
        sub_type: sub_type.map(|s| s.to_string()),
    })
}

fn sol_response() -> EdsmSystemResponse {
    EdsmSystemResponse {
        name: "Sol".to_string(),
        coords: Some(EdsmCoordinates { x: 0, y: 0, z: 0 }),
        primary_star: star(Some("G (White-Yellow) Star"), Some("G-type star")),
    }
}

#[test]
fn test_security_level_parsing() {
    assert_eq!(SecurityLevel::from_str("high"), Some(SecurityLevel::High));
    assert_eq!(SecurityLevel::from_str("HIGH SECURITY"), Some(SecurityLevel::High));
    assert_eq!(SecurityLevel::from_str("medium"), Some(SecurityLevel::Medium));
    assert_eq!(SecurityLevel::from_str("invalid"), None);
}

#[test]
fn security_level_names_round_trip() {
    for level in [
        SecurityLevel::High,
        SecurityLevel::Medium,
        SecurityLevel::Low,
        SecurityLevel::Lawless,
        SecurityLevel::Anarchy,
    ] {
        assert_eq!(SecurityLevel::from_str(level.as_str()), Some(level));
    }
    assert_eq!(SecurityLevel::Low.as_str(), "Low Security");
    assert_eq!(SecurityLevel::from_lowercase("Lawless"), None);
    assert_eq!(SecurityLevel::from_lowercase("lawless"), Some(SecurityLevel::Lawless));
}

#[test]
fn test_default_config() {
    let config = Config::default();
    assert_eq!(config.cache_timeout_seconds, 300);
    assert!(!config.debug_mode);
    assert_eq!(config.neutron_highway_threshold_ly as f64 / 1000.0, 500.0);
}

#[test]
fn test_config_validation() {
    let config = Config {
        cmdr_name: "TestCMDR".to_string(),
        ship: ShipConfig {
            name: "Test Ship".to_string(),
            laden_jump_range: 30_000,
            max_jump_range: Some(50_000),
        },
        ..Default::default()
    };
    assert!(validate_config(&config).is_ok());

    let config = Config { cmdr_name: String::new(), ..Default::default() };
    assert!(validate_config(&config).is_err());

    let config = Config {
        cmdr_name: "TestCMDR".to_string(),
        ship: ShipConfig {
            name: "Test Ship".to_string(),
            laden_jump_range: 0,
            max_jump_range: None,
        },
        ..Default::default()
    };
    assert!(validate_config(&config).is_err());

    let config = Config {
        cmdr_name: "TestCMDR".to_string(),
        cache_timeout_seconds: 0,
        ..Default::default()
    };
    assert!(validate_config(&config).is_err());
}

#[test]
fn negative_thresholds_are_rejected() {
    let config = Config {
        cmdr_name: "TestCMDR".to_string(),
        white_dwarf_threshold_ly: -1,
        ..Default::default()
    };
    match validate_config(&config) {
        Err(EdjcError::Config(m)) => assert_eq!(m, "White dwarf threshold must be non-negative"),
        other => panic!("unexpected {:?}", other),
    }
}

#[test]
fn config_path_follows_environment() {
    assert_eq!(get_config_path(Some("/xdg"), Some("C:/AppData"), Some("/home/u")), "/xdg/edjc/edjc.toml");
    assert_eq!(get_config_path(None, Some("C:/AppData/"), None), "C:/AppData/EDJC/edjc.toml");
    assert_eq!(get_config_path(None, None, Some("/home/u")), "/home/u/.config/edjc/edjc.toml");
    assert_eq!(get_config_path(None, None, None), "./config/edjc.toml");
}

#[test]
fn star_info_constructors() {
    let n = StarInfo::neutron_star();
    assert!(n.can_supercharge);
    assert_eq!(n.supercharge_multiplier, 40);
    let w = StarInfo::white_dwarf("DA");
    assert_eq!(w.star_class, "DA");
    assert_eq!(w.supercharge_multiplier, 15);
    let g = StarInfo::regular_star("G", "G2V");
    assert!(!g.can_supercharge);
    assert_eq!(g.supercharge_multiplier, 10);
}

#[test]
fn cache_keys_ignore_case() {
    assert_eq!(system_cache_key("sol"), system_cache_key("SOL"));
    assert_eq!(system_cache_key("Sol"), "coords:sol");
    assert_eq!(commander_cache_key("Whit3Arrow"), "cmdr_location:whit3arrow");
}

#[test]
fn cached_answer_is_reused() {
    let client = EdsmClient::new();
    assert!(matches!(client.get_system_coordinates("sol", None), Lookup::Fetch));
    match client.get_system_coordinates("sol", Some(Ok(sol_response()))) {
        Lookup::Done(Ok(c)) => assert_eq!(c.name, "Sol"),
        other => panic!("unexpected {:?}", other),
    }
    match client.get_system_coordinates("SOL", None) {
        Lookup::Done(Ok(c)) => {
            assert_eq!(c.name, "Sol");
            assert_eq!((c.x, c.y, c.z), (0, 0, 0));
        }
        other => panic!("unexpected {:?}", other),
    }
    assert!(matches!(client.get_system_coordinates("Achenar", None), Lookup::Fetch));
}

#[test]
fn failed_lookups_are_not_cached() {
    let client = EdsmClient::new();
    let missing = EdsmSystemResponse { name: String::new(), coords: None, primary_star: None };
    match client.get_system_coordinates("Nowhere", Some(Ok(missing))) {
        Lookup::Done(Err(EdjcError::SystemNotFound(n))) => assert_eq!(n, "Nowhere"),
        other => panic!("unexpected {:?}", other),
    }
    assert!(matches!(client.get_system_coordinates("Nowhere", None), Lookup::Fetch));
    match client.get_system_coordinates("Sol", Some(Err(EdjcError::Network("timeout".to_string())))) {
        Lookup::Done(Err(EdjcError::Network(m))) => assert_eq!(m, "timeout"),
        other => panic!("unexpected {:?}", other),
    }
}

#[test]
fn commander_location_is_cached() {
    let client = EdsmClient::new();
    assert!(matches!(client.get_commander_location("Jameson", None), Lookup::Fetch));
    let resp = EdsmCommanderResponse {
        msg_num: Some(100),
        msg: Some("OK".to_string()),
        system: Some("Shinrarta Dezhra".to_string()),
    };
    match client.get_commander_location("Jameson", Some(Ok(resp))) {
        Lookup::Done(Ok(s)) => assert_eq!(s, "Shinrarta Dezhra"),
        other => panic!("unexpected {:?}", other),
    }
    match client.get_commander_location("JAMESON", None) {
        Lookup::Done(Ok(s)) => assert_eq!(s, "Shinrarta Dezhra"),
        other => panic!("unexpected {:?}", other),
    }
}

#[test]
fn commander_errors() {
    let api_error = EdsmCommanderResponse { msg_num: Some(203), msg: None, system: None };
    match location_from_response("Jameson", &api_error) {
        Err(EdjcError::EdsmApi(code, m)) => {
            assert_eq!(code, 203);
            assert_eq!(m, "Unknown error");
        }
        other => panic!("unexpected {:?}", other),
    }
    let hidden = EdsmCommanderResponse { msg_num: None, msg: None, system: None };
    match location_from_response("Jameson", &hidden) {
        Err(EdjcError::CmdrNotFound(n)) => assert_eq!(n, "Jameson"),
        other => panic!("unexpected {:?}", other),
    }
}

#[test]
fn star_classification_uses_literal_tokens() {
    assert_eq!(classify_star(&star(Some("Neutron Star"), None)), (true, false));
    assert_eq!(classify_star(&star(None, Some("Neutron Star"))), (true, false));
    assert_eq!(classify_star(&star(Some("White Dwarf (DA) Star"), None)), (false, true));
    assert_eq!(classify_star(&star(None, Some("DB"))), (false, true));
    assert_eq!(classify_star(&star(None, Some("DCV"))), (false, true));
    assert_eq!(classify_star(&star(Some("neutron star"), Some("da"))), (false, false));
    assert_eq!(classify_star(&None), (false, false));
}

#[test]
fn response_with_out_of_span_coordinates_is_invalid() {
    let resp = EdsmSystemResponse {
        name: "Edge".to_string(),
        coords: Some(EdsmCoordinates { x: i64::MAX, y: 0, z: 0 }),
        primary_star: None,
    };
    match coordinates_from_response("edge", &resp) {
        Err(EdjcError::InvalidCoordinates(n)) => assert_eq!(n, "Edge"),
        other => panic!("unexpected {:?}", other),
    }
}

#[test]
fn probe_checks_origin() {
    let at_origin: Result<SystemCoordinates, EdjcError> = coordinates_from_response("Sol", &sol_response());
    assert!(EdsmClient::test_connection(&at_origin));
    let away = SystemCoordinates {
        name: "Sol".to_string(),
        x: 1_000,
        y: 0,
        z: 0,
        has_neutron_star: false,
        has_white_dwarf: false,
    };
    assert!(!EdsmClient::test_connection(&Ok(away)));
    assert!(!EdsmClient::test_connection(&Err(EdjcError::SystemNotFound("Sol".to_string()))));
}

#[test]
fn expired_answer_is_fetched_again() {
    let client = EdsmClient::with_ttl(1);
    assert!(matches!(client.get_system_coordinates("Sol", None), Lookup::Fetch));
    assert!(matches!(
        client.get_system_coordinates("Sol", Some(Ok(sol_response()))),
        Lookup::Done(Ok(_))
    ));
    assert!(matches!(client.get_system_coordinates("sol", None), Lookup::Done(Ok(_))));
    let start = std::time::Instant::now();
    while start.elapsed() < std::time::Duration::from_millis(1500) {}
    assert!(matches!(client.get_system_coordinates("sol", None), Lookup::Fetch));
}
