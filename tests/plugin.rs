use edjc::config::Config;
use edjc::jump_calculator::JumpCalculator;
use edjc::plugin::{EdJumpCalculator, RouteCommand, SignalParse};
use edjc::types::{EdjcError, JumpResult, SystemCoordinates};

fn context(cmdr: &str, range: i64) -> EdJumpCalculator {
    let mut config = Config::default();
    config.cmdr_name = cmdr.to_string();
    config.ship.laden_jump_range = range;
    EdJumpCalculator::new(&config)
}

fn result() -> JumpResult {
    JumpResult {
        jumps: 5,
        total_distance: 123_450,
        route_type: "neutron highway".to_string(),
        from_system: "Sol".to_string(),
        to_system: "Colonia".to_string(),
    }
}

const SIGNAL: &str = "RATSIGNAL Case #3 PC ODY - CMDR Whit3Arrow - System: \"CRUCIS SECTOR IW-N A6-5\" (Brown dwarf 51 LY from Fuelum) - Language: English (United States) (en-US) (ODY_SIGNAL)";

#[test]
fn signal_is_read() {
    let ctx = context("Jameson", 35_000);
    match ctx.process_message("MechaSqueak[BOT]", SIGNAL) {
        SignalParse::Signal(info) => {
            assert_eq!(info.case_number, "3");
            assert_eq!(info.system_name, "CRUCIS SECTOR IW-N A6-5");
            // The commander group runs up to "System:", as the pattern stops only at an en dash.
            assert_eq!(info.cmdr_name, "Whit3Arrow -");
            assert_eq!(info.language.as_deref(), Some("English"));
            assert_eq!(info.raw_message, SIGNAL);
        }
        other => panic!("unexpected {:?}", other),
    }
}

#[test]
fn other_senders_are_ignored() {
    let ctx = context("Jameson", 35_000);
    assert!(matches!(ctx.process_message("SomeoneElse", SIGNAL), SignalParse::Ignored));
    assert!(matches!(ctx.process_message("MechaSqueak[BOT]", "hello there"), SignalParse::Ignored));
    assert!(matches!(
        ctx.process_message("MechaSqueak[BOT]", "RATSIGNAL without details"),
        SignalParse::Unparsed
    ));
    assert_eq!(
        EdJumpCalculator::unparsed_reply(),
        "⚠️ RATSIGNAL detected but couldn't parse system information"
    );
}

#[test]
fn signal_reply_words_route_and_error() {
    let ctx = context("Jameson", 35_000);
    let info = match ctx.process_message("MechaSqueak[BOT]", SIGNAL) {
        SignalParse::Signal(info) => info,
        other => panic!("unexpected {:?}", other),
    };
    let ok = ctx.signal_reply(&info, &Ok((result(), "Sol".to_string())));
    assert_eq!(
        ok,
        "🚀 Case #3: 5 jumps to CRUCIS SECTOR IW-N A6-5 (123.5ly) via neutron highway route (from Sol with 35.0ly range)"
    );
    let err = ctx.signal_reply(&info, &Err(EdjcError::SystemNotFound("CRUCIS SECTOR IW-N A6-5".to_string())));
    assert_eq!(
        err,
        "❌ Case #3: Jump calculation failed for CRUCIS SECTOR IW-N A6-5 - System not found: CRUCIS SECTOR IW-N A6-5"
    );
}

#[test]
fn route_command_trims_and_replies() {
    let ctx = context("Jameson", 35_500);
    match ctx.handle_route_command("   ") {
        RouteCommand::Reply(t) => assert_eq!(t, "Usage: /route <system_name>"),
        other => panic!("unexpected {:?}", other),
    }
    match ctx.handle_route_command("  Colonia ") {
        RouteCommand::Calculate(n) => assert_eq!(n, "Colonia"),
        other => panic!("unexpected {:?}", other),
    }
    let ok = ctx.route_reply("Colonia", &Ok((result(), "Sol".to_string())));
    assert_eq!(
        ok,
        "🚀 Route to Colonia: 5 jumps (123.5 LY) via neutron highway route (from Sol with 35.5 LY range)"
    );
    let err = ctx.route_reply("Colonia", &Err(EdjcError::InvalidJumpRange(-2_500)));
    assert_eq!(err, "❌ Route calculation failed for Colonia: Invalid jump range: -2.5ly");
}

#[test]
fn origin_falls_back_to_sol() {
    assert_eq!(EdJumpCalculator::origin_system(Ok("Achenar".to_string())), "Achenar");
    assert_eq!(
        EdJumpCalculator::origin_system(Err(EdjcError::CmdrNotFound("Jameson".to_string()))),
        "Sol"
    );
}

#[test]
fn route_with_origin_uses_ship_range() {
    let ctx = context("Jameson", 25_000);
    let a = SystemCoordinates {
        name: "A".to_string(),
        x: 0,
        y: 0,
        z: 0,
        has_neutron_star: false,
        has_white_dwarf: false,
    };
    let b = SystemCoordinates { name: "B".to_string(), x: 100_000, ..a.clone() };
    let (r, origin) = ctx.calculate_jumps_with_origin("A".to_string(), &a, &b).unwrap();
    assert_eq!(origin, "A");
    let expected = JumpCalculator::new().calculate_route(&a, &b, 25_000).unwrap();
    assert_eq!(r.jumps, expected.jumps);
    assert_eq!(r.total_distance, 100_000);
    let broken = context("Jameson", 0);
    assert!(matches!(
        broken.calculate_jumps_with_origin("A".to_string(), &a, &b),
        Err(EdjcError::InvalidJumpRange(0))
    ));
}

#[test]
fn context_validation() {
    assert!(context("Jameson", 35_000).validate_config(true).is_ok());
    match context("", 35_000).validate_config(true) {
        Err(EdjcError::Config(m)) => assert!(m.starts_with("CMDR name is not configured")),
        other => panic!("unexpected {:?}", other),
    }
    match context("Jameson", 0).validate_config(true) {
        Err(EdjcError::Config(m)) => assert!(m.starts_with("Ship laden jump range")),
        other => panic!("unexpected {:?}", other),
    }
    match context("Jameson", 35_000).validate_config(false) {
        Err(EdjcError::Network(m)) => assert_eq!(m, "EDSM API connection test failed"),
        other => panic!("unexpected {:?}", other),
    }
}

#[test]
fn error_messages() {
    assert_eq!(EdjcError::EdsmApi(-3, "bad".to_string()).message(), "EDSM API error -3: bad");
    assert_eq!(EdjcError::EdsmApi(203, "gone".to_string()).message(), "EDSM API error 203: gone");
    assert_eq!(EdjcError::CmdrNotFound("X".to_string()).message(), "CMDR not found: X");
    assert_eq!(EdjcError::InvalidJumpRange(0).message(), "Invalid jump range: 0.0ly");
    assert_eq!(EdjcError::InvalidCoordinates("Far".to_string()).message(), "Coordinates out of range: Far");
    assert_eq!(EdjcError::Config("c".to_string()).message(), "Configuration error: c");
    assert_eq!(EdjcError::Network("n".to_string()).message(), "Network error: n");
    assert_eq!(EdjcError::Parse("p".to_string()).message(), "Parsing error: p");
}
