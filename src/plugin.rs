//! The chat-side context: recognises rescue signals in chat, and words the replies to them
//! and to the route command.
//!
//! Lookups and network work are driven by the host: it asks this context what to do with a
//! message, runs the coordinate lookups, and hands the outcome back to be worded.
use vstd::prelude::*;
use vstd::string::*;

use crate::config::Config;
use crate::edsm::EdsmClient;
use crate::jump_calculator::{coordinates_in_span, route_error, route_matches, JumpCalculator};
use crate::text::{
    contains_text, decimal, decimal_string, occurs_in, one_decimal, one_decimal_string, same_text,
    signed_one_decimal, signed_one_decimal_string, trim, trimmed_of,
};
use crate::types::{error_text, EdjcError, JumpResult, RatsignalInfo, SystemCoordinates};

verus! {

/// The pattern of a rescue signal: case number, commander, system and language.
pub const RATSIGNAL_PATTERN: &'static str = r#"RATSIGNAL.*?Case\s*#(\d+).*?CMDR\s+([^–]+).*?System:\s*"([^"]+)".*?Language:\s*([^(]*)"#;

/// The one sender whose messages may carry rescue signals.
pub const SIGNAL_SENDER: &'static str = "MechaSqueak[BOT]";

/// The system used as origin when the commander's location is unknown.
pub const FALLBACK_ORIGIN: &'static str = "Sol";

/// What the `regex` crate reports for `pattern` on `text`: every group of the leftmost-first
/// match (group 0 is the whole match), or `None` when the pattern does not compile or nothing
/// matches.
pub uninterp spec fn regex_captures(pattern: Seq<char>, text: Seq<char>) -> Option<Seq<Option<Seq<char>>>>;

/// The characters of capture groups.
pub open spec fn groups_view(c: Option<Vec<Option<String>>>) -> Option<Seq<Option<Seq<char>>>> {
    match c {
        Some(v) => Some(
            v@.map_values(
                |g: Option<String>|
                    match g {
                        Some(s) => Some(s@),
                        None => None,
                    },
            ),
        ),
        None => None,
    }
}

/// Relies on regex's `Regex::new` and `Regex::captures`: compiles `pattern` and returns the
/// groups of its leftmost-first match in `text`, or `None` when the pattern is invalid or
/// does not match. The groups depend on the pattern and the text alone.
#[verifier::external_body]
fn captures(pattern: &str, text: &str) -> (r: Option<Vec<Option<String>>>)
    ensures
        groups_view(r) == regex_captures(pattern@, text@),
{
    match regex::Regex::new(pattern) {
        Ok(re) => re.captures(text).map(
            |caps| caps.iter().map(|m| m.map(|m| m.as_str().to_string())).collect(),
        ),
        Err(_) => None,
    }
}

/// Group `i`, when the match has it.
pub open spec fn group(groups: Seq<Option<Seq<char>>>, i: int) -> Option<Seq<char>> {
    if 0 <= i < groups.len() {
        groups[i]
    } else {
        None
    }
}

/// What a chat message amounts to.
#[derive(Debug)]
pub enum SignalParse {
    /// Not a rescue signal.
    Ignored,
    /// A rescue signal whose system could not be read.
    Unparsed,
    /// A rescue signal: work out the route to its system and word the reply.
    Signal(RatsignalInfo),
}

/// What the route command asks for.
#[derive(Debug)]
pub enum RouteCommand {
    /// Reply at once with this text.
    Reply(String),
    /// Work out the route to this system and word the reply.
    Calculate(String),
}

/// A group's text, or "Unknown" when the match lacks it; trimmed when `trimmed` holds.
pub open spec fn group_or_unknown(groups: Seq<Option<Seq<char>>>, i: int, trimmed: bool) -> Seq<char> {
    match group(groups, i) {
        Some(t) => if trimmed {
            trimmed_of(t)
        } else {
            t
        },
        None => "Unknown"@,
    }
}

/// The signal read from a message whose match has these groups.
pub open spec fn signal_matches(info: RatsignalInfo, message: Seq<char>, groups: Seq<Option<Seq<char>>>) -> bool {
    &&& group(groups, 3) matches Some(system) && info.system_name@ == system
    &&& info.case_number@ == group_or_unknown(groups, 1, false)
    &&& info.cmdr_name@ == group_or_unknown(groups, 2, true)
    &&& info.language matches Some(l) && l@ == group_or_unknown(groups, 4, true)
    &&& info.platform@ == Seq::<char>::empty()
    &&& info.mode is None
    &&& info.system_info is None
    &&& info.raw_message@ == message
}

/// What a message from `sender` amounts to.
pub open spec fn parse_matches(r: SignalParse, sender: Seq<char>, message: Seq<char>) -> bool {
    let unmatched = if occurs_in(message, "RATSIGNAL"@) {
        r is Unparsed
    } else {
        r is Ignored
    };
    if sender != SIGNAL_SENDER@ {
        r is Ignored
    } else {
        match regex_captures(RATSIGNAL_PATTERN@, message) {
            Some(groups) => if group(groups, 3) is Some {
                r matches SignalParse::Signal(info) && signal_matches(info, message, groups)
            } else {
                unmatched
            },
            None => unmatched,
        }
    }
}

/// The reply to a rescue signal, given the route outcome and the ship's range.
pub open spec fn signal_reply_text(
    case_number: Seq<char>,
    target: Seq<char>,
    outcome: Result<(JumpResult, String), EdjcError>,
    range: int,
) -> Seq<char> {
    match outcome {
        Ok((r, origin)) => "🚀 Case #"@ + case_number + ": "@ + decimal(r.jumps as nat) + " jumps to "@
            + target + " ("@ + one_decimal(r.total_distance as nat) + "ly) via "@ + r.route_type@
            + " route (from "@ + origin@ + " with "@ + signed_one_decimal(range) + "ly range)"@,
        Err(e) => "❌ Case #"@ + case_number + ": Jump calculation failed for "@ + target + " - "@
            + error_text(e),
    }
}

/// The reply to the route command, given the route outcome and the ship's range.
pub open spec fn route_reply_text(
    system_name: Seq<char>,
    outcome: Result<(JumpResult, String), EdjcError>,
    range: int,
) -> Seq<char> {
    match outcome {
        Ok((r, origin)) => "🚀 Route to "@ + system_name + ": "@ + decimal(r.jumps as nat) + " jumps ("@
            + one_decimal(r.total_distance as nat) + " LY) via "@ + r.route_type@ + " route (from "@
            + origin@ + " with "@ + signed_one_decimal(range) + " LY range)"@,
        Err(e) => "❌ Route calculation failed for "@ + system_name + ": "@ + error_text(e),
    }
}

/// The error that keeps a context from working, checked in this order: no commander name,
/// a jump range that is not positive, a failed connection probe.
pub open spec fn context_error(e: EdjcError, cmdr_name: Seq<char>, ship_jump_range: int) -> bool {
    if cmdr_name.len() == 0 {
        e matches EdjcError::Config(m) && m@
            == "CMDR name is not configured. Please set 'cmdr_name' in edjc.toml"@
    } else if ship_jump_range <= 0 {
        e matches EdjcError::Config(m) && m@
            == "Ship laden jump range must be greater than 0. Please set 'ship.laden_jump_range' in edjc.toml"@
    } else {
        e matches EdjcError::Network(m) && m@ == "EDSM API connection test failed"@
    }
}

/// The context a chat host keeps for the lifetime of the plugin.
pub struct EdJumpCalculator {
    pub edsm_client: EdsmClient,
    pub jump_calculator: JumpCalculator,
    pub cmdr_name: String,
    pub edsm_api_key: Option<String>,
    /// Laden jump range of the ship, in milli-light-years.
    pub ship_jump_range: i64,
}

impl EdJumpCalculator {
    /// A context for the given settings, with an empty coordinate cache.
    pub fn new(config: &Config) -> (r: Self)
        ensures
            r.cmdr_name@ == config.cmdr_name@,
            r.edsm_api_key == config.edsm_api_key,
            r.ship_jump_range == config.ship.laden_jump_range,
            r.jump_calculator.neutron_threshold == crate::jump_calculator::DEFAULT_NEUTRON_THRESHOLD,
            r.jump_calculator.white_dwarf_threshold
                == crate::jump_calculator::DEFAULT_WHITE_DWARF_THRESHOLD,
    {
        EdJumpCalculator {
            edsm_client: EdsmClient::new(),
            jump_calculator: JumpCalculator::new(),
            cmdr_name: config.cmdr_name.clone(),
            edsm_api_key: clone_text(&config.edsm_api_key),
            ship_jump_range: config.ship.laden_jump_range,
        }
    }

    /// Checks that the context can work: a commander name, a positive jump range, and a
    /// connection probe that succeeded (see `EdsmClient::test_connection`).
    pub fn validate_config(&self, connection_ok: bool) -> (r: Result<(), EdjcError>)
        ensures
            r.is_ok() <==> self.cmdr_name@.len() > 0 && self.ship_jump_range > 0 && connection_ok,
            r matches Err(e) ==> context_error(e, self.cmdr_name@, self.ship_jump_range as int),
    {
        if self.cmdr_name.as_str().unicode_len() == 0 {
            return Err(
                EdjcError::Config(
                    String::from_str(
                        "CMDR name is not configured. Please set 'cmdr_name' in edjc.toml",
                    ),
                ),
            );
        }
        if self.ship_jump_range <= 0 {
            return Err(
                EdjcError::Config(
                    String::from_str(
                        "Ship laden jump range must be greater than 0. Please set 'ship.laden_jump_range' in edjc.toml",
                    ),
                ),
            );
        }
        if !connection_ok {
            return Err(EdjcError::Network(String::from_str("EDSM API connection test failed")));
        }
        Ok(())
    }

    /// What a chat message from `sender` amounts to: only the signal bot's messages are read;
    /// a match of the signal pattern yields its case, commander, system and language, and an
    /// unmatched message that mentions a signal is reported as unreadable. The pattern does
    /// not read the platform, mode or system details: those stay empty.
    pub fn process_message(&self, sender: &str, message: &str) -> (r: SignalParse)
        ensures
            parse_matches(r, sender@, message@),
    {
        if !same_text(sender, SIGNAL_SENDER) {
            return SignalParse::Ignored;
        }
        let caps = captures(RATSIGNAL_PATTERN, message);
        if let Some(groups) = caps {
            let ghost g = groups_view(Some(groups)).unwrap();
            assert(g.len() == groups@.len());
            if groups.len() > 3 {
                if let Some(system) = &groups[3] {
                    assert(group(g, 3) == Some(system@));
                    let case_number = match group_at(&groups, 1) {
                        Some(t) => String::from_str(t),
                        None => String::from_str("Unknown"),
                    };
                    let cmdr_name = match group_at(&groups, 2) {
                        Some(t) => String::from_str(trim(t)),
                        None => String::from_str("Unknown"),
                    };
                    let language = match group_at(&groups, 4) {
                        Some(t) => String::from_str(trim(t)),
                        None => String::from_str("Unknown"),
                    };
                    proof {
                        reveal_strlit("Unknown");
                    }
                    return SignalParse::Signal(
                        RatsignalInfo {
                            case_number,
                            platform: String::new(),
                            mode: None,
                            cmdr_name,
                            system_name: system.clone(),
                            system_info: None,
                            language: Some(language),
                            raw_message: String::from_str(message),
                        },
                    );
                }
            }
        }
        if contains_text(message, "RATSIGNAL") {
            SignalParse::Unparsed
        } else {
            SignalParse::Ignored
        }
    }

    /// The reply to a rescue signal once its route outcome is known: the route and its
    /// origin, or the error.
    pub fn signal_reply(&self, info: &RatsignalInfo, outcome: &Result<(JumpResult, String), EdjcError>) -> (r:
        String)
        ensures
            r@ == signal_reply_text(info.case_number@, info.system_name@, *outcome, self.ship_jump_range as int),
    {
        let head = String::from_str("🚀 Case #").concat(info.case_number.as_str());
        match outcome {
            Ok((res, origin)) => head.concat(": ").concat(decimal_string(res.jumps).as_str()).concat(
                " jumps to ",
            ).concat(info.system_name.as_str()).concat(" (").concat(
                one_decimal_string(res.total_distance).as_str(),
            ).concat("ly) via ").concat(res.route_type.as_str()).concat(" route (from ").concat(
                origin.as_str(),
            ).concat(" with ").concat(signed_one_decimal_string(self.ship_jump_range).as_str()).concat(
                "ly range)",
            ),
            Err(e) => String::from_str("❌ Case #").concat(info.case_number.as_str()).concat(
                ": Jump calculation failed for ",
            ).concat(info.system_name.as_str()).concat(" - ").concat(e.message().as_str()),
        }
    }

    /// The reply to a signal that could not be read.
    pub fn unparsed_reply() -> (r: String)
        ensures
            r@ == "⚠️ RATSIGNAL detected but couldn't parse system information"@,
    {
        String::from_str("⚠️ RATSIGNAL detected but couldn't parse system information")
    }

    /// What the route command with argument `target_system` asks for: a usage hint when the
    /// argument is blank, else the route to the trimmed system name.
    pub fn handle_route_command(&self, target_system: &str) -> (r: RouteCommand)
        ensures
            trimmed_of(target_system@).len() == 0 ==> (r matches RouteCommand::Reply(t) && t@
                == "Usage: /route <system_name>"@),
            trimmed_of(target_system@).len() > 0 ==> (r matches RouteCommand::Calculate(n) && n@
                == trimmed_of(target_system@)),
    {
        let name = trim(target_system);
        if name.unicode_len() == 0 {
            RouteCommand::Reply(String::from_str("Usage: /route <system_name>"))
        } else {
            RouteCommand::Calculate(String::from_str(name))
        }
    }

    /// The reply to the route command once its route outcome is known.
    pub fn route_reply(&self, system_name: &str, outcome: &Result<(JumpResult, String), EdjcError>) -> (r:
        String)
        ensures
            r@ == route_reply_text(system_name@, *outcome, self.ship_jump_range as int),
    {
        match outcome {
            Ok((res, origin)) => String::from_str("🚀 Route to ").concat(system_name).concat(": ").concat(
                decimal_string(res.jumps).as_str(),
            ).concat(" jumps (").concat(one_decimal_string(res.total_distance).as_str()).concat(
                " LY) via ",
            ).concat(res.route_type.as_str()).concat(" route (from ").concat(origin.as_str()).concat(
                " with ",
            ).concat(signed_one_decimal_string(self.ship_jump_range).as_str()).concat(" LY range)"),
            Err(e) => String::from_str("❌ Route calculation failed for ").concat(system_name).concat(
                ": ",
            ).concat(e.message().as_str()),
        }
    }

    /// The system a route starts from: the commander's location when it was found, else the
    /// fallback origin.
    pub fn origin_system(location: Result<String, EdjcError>) -> (r: String)
        ensures
            location matches Ok(s) ==> r@ == s@,
            location is Err ==> r@ == FALLBACK_ORIGIN@,
    {
        match location {
            Ok(s) => s,
            Err(_) => String::from_str(FALLBACK_ORIGIN),
        }
    }

    /// The route from `current` (the system named `origin`) to `target` with the ship's range,
    /// paired with the origin's name.
    pub fn calculate_jumps_with_origin(
        &self,
        origin: String,
        current: &SystemCoordinates,
        target: &SystemCoordinates,
    ) -> (r: Result<(JumpResult, String), EdjcError>)
        ensures
            r.is_ok() <==> self.ship_jump_range > 0 && coordinates_in_span(current)
                && coordinates_in_span(target),
            r matches Ok((res, o)) ==> route_matches(&res, current, target, self.ship_jump_range as int)
                && o@ == origin@,
            r matches Err(e) ==> route_error(e, current, target, self.ship_jump_range),
    {
        let res = self.jump_calculator.calculate_route(current, target, self.ship_jump_range)?;
        Ok((res, origin))
    }
}

fn clone_text(s: &Option<String>) -> (r: Option<String>)
    ensures
        r == *s,
{
    match s {
        Some(t) => Some(t.clone()),
        None => None,
    }
}

fn group_at(groups: &Vec<Option<String>>, i: usize) -> (r: Option<&str>)
    ensures
        match group(groups_view(Some(*groups)).unwrap(), i as int) {
            Some(t) => r matches Some(u) && u@ == t,
            None => r is None,
        },
{
    if i < groups.len() {
        match &groups[i] {
            Some(t) => Some(t.as_str()),
            None => None,
        }
    } else {
        None
    }
}

} // verus!
