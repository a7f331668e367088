//! Value types shared by the coordinate client and the route calculator.
//!
//! Lengths are held as whole milli-light-years (thousandths of a light-year).
use vstd::prelude::*;
use vstd::string::*;

use crate::jump_calculator::{coordinates_in_span, distance_squared, in_span, rounded_distance, rounded_sqrt, squared_distance};
use crate::text::{
    decimal, decimal_string, lowercase, lowercase_of, one_decimal, one_decimal_string, replace_all,
    replaced, same_text, signed_decimal, signed_decimal_string, signed_one_decimal,
    signed_one_decimal_string,
};

verus! {

/// A resolved star system: a point in galactic space plus the kind of its primary star.
///
/// `x`, `y` and `z` are in milli-light-years from a shared origin.
#[derive(Clone, Debug)]
pub struct SystemCoordinates {
    pub name: String,
    pub x: i64,
    pub y: i64,
    pub z: i64,
    pub has_neutron_star: bool,
    pub has_white_dwarf: bool,
}

/// The outcome of a route calculation.
///
/// `total_distance` is the straight-line distance between the endpoints, rounded to the
/// nearest milli-light-year.
#[derive(Clone, Debug)]
pub struct JumpResult {
    pub jumps: u64,
    pub total_distance: u64,
    pub route_type: String,
    pub from_system: String,
    pub to_system: String,
}

/// Errors surfaced by the library.
#[derive(Clone, Debug)]
pub enum EdjcError {
    /// The remote service answered with an application-level error code and message.
    EdsmApi(i64, String),
    /// The named system has no coordinate data.
    SystemNotFound(String),
    /// The named commander has no location data.
    CmdrNotFound(String),
    /// A jump range that is not strictly positive (milli-light-years).
    InvalidJumpRange(i64),
    /// A coordinate outside the supported span.
    InvalidCoordinates(String),
    /// A configuration value that is out of bounds.
    Config(String),
    /// The remote service could not be reached.
    Network(String),
    /// The remote service answered with something that could not be read.
    Parse(String),
}

/// Information about a commander (player).
#[derive(Clone, Debug)]
pub struct CmdrInfo {
    pub cmdr_name: String,
    pub current_system: String,
    pub current_station: Option<String>,
}

/// A ship and its jump ranges (milli-light-years).
#[derive(Clone, Debug)]
pub struct ShipInfo {
    pub ship_type: String,
    pub ship_name: Option<String>,
    pub min_jump_range: i64,
    pub max_jump_range: i64,
}

/// A star system with what is known of it.
#[derive(Clone, Debug)]
pub struct SystemInfo {
    pub coordinates: SystemCoordinates,
    /// Distance from a reference system (milli-light-years), if one applies.
    pub distance_from_reference: Option<u64>,
    pub population: Option<u64>,
    pub has_stations: bool,
    pub primary_star: Option<StarInfo>,
    pub security: Option<SecurityLevel>,
}

/// A star and whether it can supercharge a frame shift drive.
#[derive(Clone, Debug)]
pub struct StarInfo {
    pub star_type: String,
    pub star_class: String,
    /// Mass in thousandths of a solar mass.
    pub mass: Option<u64>,
    /// Surface temperature in kelvin.
    pub temperature: Option<u64>,
    pub can_supercharge: bool,
    /// Range multiplier in tenths: 10 for none, 15 for a white dwarf, 40 for a neutron star.
    pub supercharge_multiplier: u64,
}

impl StarInfo {
    /// A neutron star: class `N`, supercharges by four.
    pub fn neutron_star() -> (r: Self)
        ensures
            r.star_type@ == "Neutron Star"@,
            r.star_class@ == "N"@,
            r.mass is None,
            r.temperature is None,
            r.can_supercharge,
            r.supercharge_multiplier == 40,
    {
        StarInfo {
            star_type: String::from_str("Neutron Star"),
            star_class: String::from_str("N"),
            mass: None,
            temperature: None,
            can_supercharge: true,
            supercharge_multiplier: 40,
        }
    }

    /// A white dwarf of the given class: supercharges by one and a half.
    pub fn white_dwarf(class: &str) -> (r: Self)
        ensures
            r.star_type@ == "White Dwarf"@,
            r.star_class@ == class@,
            r.mass is None,
            r.temperature is None,
            r.can_supercharge,
            r.supercharge_multiplier == 15,
    {
        StarInfo {
            star_type: String::from_str("White Dwarf"),
            star_class: String::from_str(class),
            mass: None,
            temperature: None,
            can_supercharge: true,
            supercharge_multiplier: 15,
        }
    }

    /// A star that gives no supercharge.
    pub fn regular_star(star_type: &str, star_class: &str) -> (r: Self)
        ensures
            r.star_type@ == star_type@,
            r.star_class@ == star_class@,
            r.mass is None,
            r.temperature is None,
            !r.can_supercharge,
            r.supercharge_multiplier == 10,
    {
        StarInfo {
            star_type: String::from_str(star_type),
            star_class: String::from_str(star_class),
            mass: None,
            temperature: None,
            can_supercharge: false,
            supercharge_multiplier: 10,
        }
    }
}

/// System security levels.
#[derive(Clone, Copy, Debug, PartialEq, Eq, Structural)]
pub enum SecurityLevel {
    High,
    Medium,
    Low,
    Lawless,
    Anarchy,
}

/// The security level a lower-case name denotes.
pub open spec fn security_of(t: Seq<char>) -> Option<SecurityLevel> {
    if t == "high"@ || t == "high security"@ {
        Some(SecurityLevel::High)
    } else if t == "medium"@ || t == "medium security"@ {
        Some(SecurityLevel::Medium)
    } else if t == "low"@ || t == "low security"@ {
        Some(SecurityLevel::Low)
    } else if t == "lawless"@ {
        Some(SecurityLevel::Lawless)
    } else if t == "anarchy"@ {
        Some(SecurityLevel::Anarchy)
    } else {
        None
    }
}

/// The display name of a security level.
pub open spec fn security_label(l: SecurityLevel) -> Seq<char> {
    match l {
        SecurityLevel::High => "High Security"@,
        SecurityLevel::Medium => "Medium Security"@,
        SecurityLevel::Low => "Low Security"@,
        SecurityLevel::Lawless => "Lawless"@,
        SecurityLevel::Anarchy => "Anarchy"@,
    }
}

impl SecurityLevel {
    /// The level named by `s`, ignoring case ("high" or "high security", and so on).
    pub fn from_str(s: &str) -> (r: Option<Self>)
        ensures
            r == security_of(lowercase_of(s@)),
    {
        let lowered = lowercase(s);
        Self::from_lowercase(lowered.as_str())
    }

    /// The level named by an already lower-cased `s`.
    pub fn from_lowercase(s: &str) -> (r: Option<Self>)
        ensures
            r == security_of(s@),
    {
        if same_text(s, "high") || same_text(s, "high security") {
            Some(SecurityLevel::High)
        } else if same_text(s, "medium") || same_text(s, "medium security") {
            Some(SecurityLevel::Medium)
        } else if same_text(s, "low") || same_text(s, "low security") {
            Some(SecurityLevel::Low)
        } else if same_text(s, "lawless") {
            Some(SecurityLevel::Lawless)
        } else if same_text(s, "anarchy") {
            Some(SecurityLevel::Anarchy)
        } else {
            None
        }
    }

    /// The display name of this level.
    pub fn as_str(&self) -> (r: &'static str)
        ensures
            r@ == security_label(*self),
    {
        match self {
            SecurityLevel::High => "High Security",
            SecurityLevel::Medium => "Medium Security",
            SecurityLevel::Low => "Low Security",
            SecurityLevel::Lawless => "Lawless",
            SecurityLevel::Anarchy => "Anarchy",
        }
    }
}

/// Route planning options.
#[derive(Clone, Debug)]
pub struct RouteOptions {
    pub use_neutron_stars: bool,
    pub use_white_dwarfs: bool,
    /// Largest detour (milli-light-years) taken to reach a supercharging star.
    pub max_detour_ly: u64,
    /// Fuel tank capacity in kilograms, if known.
    pub fuel_capacity: Option<u64>,
    pub avoid_dangerous: bool,
    pub prefer_populated: bool,
}

impl Default for RouteOptions {
    fn default() -> (r: Self)
        ensures
            r.use_neutron_stars,
            r.use_white_dwarfs,
            r.max_detour_ly == 50_000,
            r.fuel_capacity is None,
            r.avoid_dangerous,
            !r.prefer_populated,
    {
        RouteOptions {
            use_neutron_stars: true,
            use_white_dwarfs: true,
            max_detour_ly: 50_000,
            fuel_capacity: None,
            avoid_dangerous: true,
            prefer_populated: false,
        }
    }
}

/// A parsed rescue signal.
#[derive(Clone, Debug)]
pub struct RatsignalInfo {
    pub case_number: String,
    pub platform: String,
    pub mode: Option<String>,
    pub cmdr_name: String,
    pub system_name: String,
    pub system_info: Option<String>,
    pub language: Option<String>,
    pub raw_message: String,
}

/// The range multiplier, in tenths, that a system's primary star grants.
pub open spec fn system_multiplier(c: &SystemCoordinates) -> int {
    if c.has_neutron_star {
        40
    } else if c.has_white_dwarf {
        15
    } else {
        10
    }
}

impl SystemCoordinates {
    /// Distance to `other`, rounded to the nearest milli-light-year.
    pub fn distance_to(&self, other: &SystemCoordinates) -> (r: Result<u64, EdjcError>)
        ensures
            r.is_ok() <==> coordinates_in_span(self) && coordinates_in_span(other),
            r matches Ok(d) ==> d == rounded_sqrt(distance_squared(self, other)),
            r matches Err(e) ==> e matches EdjcError::InvalidCoordinates(n) && (if !coordinates_in_span(self) {
                n@ == self.name@
            } else {
                n@ == other.name@
            }),
    {
        if !in_span(self) {
            return Err(EdjcError::InvalidCoordinates(self.name.clone()));
        }
        if !in_span(other) {
            return Err(EdjcError::InvalidCoordinates(other.name.clone()));
        }
        Ok(rounded_distance(squared_distance(self, other)))
    }

    /// Whether this system can supercharge a frame shift drive.
    pub fn can_supercharge(&self) -> (r: bool)
        ensures
            r == (self.has_neutron_star || self.has_white_dwarf),
    {
        self.has_neutron_star || self.has_white_dwarf
    }

    /// The range multiplier in tenths: a neutron star wins over a white dwarf.
    pub fn supercharge_multiplier(&self) -> (r: u64)
        ensures
            r == system_multiplier(self),
    {
        if self.has_neutron_star {
            40
        } else if self.has_white_dwarf {
            15
        } else {
            10
        }
    }
}

/// The placeholders of a result template with their values, substituted in this order.
pub open spec fn formatted(r: &JumpResult, template: Seq<char>) -> Seq<char> {
    let distance = one_decimal(r.total_distance as nat);
    let t1 = replaced(template, "{jumps}"@, decimal(r.jumps as nat));
    let t2 = replaced(t1, "{distance}"@, distance);
    let t3 = replaced(t2, "{distance:.1}"@, distance);
    let t4 = replaced(t3, "{system}"@, r.to_system@);
    let t5 = replaced(t4, "{route}"@, r.route_type@);
    let t6 = replaced(t5, "{from}"@, r.from_system@);
    replaced(t6, "{to}"@, r.to_system@)
}

impl JumpResult {
    /// Fills a template: `{jumps}`, `{distance}` or `{distance:.1}` (light-years, one
    /// decimal), `{system}` and `{to}` (destination), `{route}`, `{from}`. Other text,
    /// including unknown placeholders, is kept as it is.
    pub fn format(&self, template: &str) -> (r: String)
        ensures
            r@ == formatted(self, template@),
    {
        let jumps = decimal_string(self.jumps);
        let distance = one_decimal_string(self.total_distance);
        let t1 = replace_all(template, "{jumps}", jumps.as_str());
        let t2 = replace_all(t1.as_str(), "{distance}", distance.as_str());
        let t3 = replace_all(t2.as_str(), "{distance:.1}", distance.as_str());
        let t4 = replace_all(t3.as_str(), "{system}", self.to_system.as_str());
        let t5 = replace_all(t4.as_str(), "{route}", self.route_type.as_str());
        let t6 = replace_all(t5.as_str(), "{from}", self.from_system.as_str());
        replace_all(t6.as_str(), "{to}", self.to_system.as_str())
    }
}

/// The text an error is reported with.
pub open spec fn error_text(e: EdjcError) -> Seq<char> {
    match e {
        EdjcError::EdsmApi(code, m) => "EDSM API error "@ + signed_decimal(code as int) + ": "@ + m@,
        EdjcError::SystemNotFound(s) => "System not found: "@ + s@,
        EdjcError::CmdrNotFound(s) => "CMDR not found: "@ + s@,
        EdjcError::InvalidJumpRange(v) => "Invalid jump range: "@ + signed_one_decimal(v as int) + "ly"@,
        EdjcError::InvalidCoordinates(s) => "Coordinates out of range: "@ + s@,
        EdjcError::Config(s) => "Configuration error: "@ + s@,
        EdjcError::Network(s) => "Network error: "@ + s@,
        EdjcError::Parse(s) => "Parsing error: "@ + s@,
    }
}

impl EdjcError {
    /// The text this error is reported with.
    pub fn message(&self) -> (r: String)
        ensures
            r@ == error_text(*self),
    {
        match self {
            EdjcError::EdsmApi(code, m) => String::from_str("EDSM API error ").concat(
                signed_decimal_string(*code).as_str(),
            ).concat(": ").concat(m.as_str()),
            EdjcError::SystemNotFound(s) => String::from_str("System not found: ").concat(s.as_str()),
            EdjcError::CmdrNotFound(s) => String::from_str("CMDR not found: ").concat(s.as_str()),
            EdjcError::InvalidJumpRange(v) => String::from_str("Invalid jump range: ").concat(
                signed_one_decimal_string(*v).as_str(),
            ).concat("ly"),
            EdjcError::InvalidCoordinates(s) => String::from_str("Coordinates out of range: ").concat(
                s.as_str(),
            ),
            EdjcError::Config(s) => String::from_str("Configuration error: ").concat(s.as_str()),
            EdjcError::Network(s) => String::from_str("Network error: ").concat(s.as_str()),
            EdjcError::Parse(s) => String::from_str("Parsing error: ").concat(s.as_str()),
        }
    }
}

} // verus!
