//! Plugin settings: defaults, validation and where the settings file lives.
//!
//! Ranges and thresholds are in milli-light-years.
use vstd::prelude::*;
use vstd::string::*;

use crate::types::EdjcError;

verus! {

/// Ship name and jump ranges.
#[derive(Clone, Debug)]
pub struct ShipConfig {
    pub name: String,
    /// Realistic jump range with cargo and fuel aboard.
    pub laden_jump_range: i64,
    /// Jump range when empty and optimized, if known.
    pub max_jump_range: Option<i64>,
}

/// Plugin settings.
#[derive(Clone, Debug)]
pub struct Config {
    pub cmdr_name: String,
    /// Credential for the remote service; without it only public data is read.
    pub edsm_api_key: Option<String>,
    pub ship: ShipConfig,
    pub cache_timeout_seconds: u64,
    pub debug_mode: bool,
    /// Distance above which a neutron highway is suggested.
    pub neutron_highway_threshold_ly: i64,
    /// Distance above which white dwarf assistance is suggested.
    pub white_dwarf_threshold_ly: i64,
    /// Template for reporting a route (see `JumpResult::format`).
    pub result_format: String,
    pub show_fuel_estimates: bool,
    pub show_time_estimates: bool,
}

/// The default result template.
pub open spec fn default_format_text() -> Seq<char> {
    "🚀 {jumps} jumps to {system} ({distance:.1}ly) via {route}"@
}

/// Default cache lifetime in seconds.
pub fn default_cache_timeout() -> (r: u64)
    ensures
        r == 300,
{
    300
}

/// Default neutron highway threshold: 500 ly.
pub fn default_neutron_threshold() -> (r: i64)
    ensures
        r == 500_000,
{
    500_000
}

/// Default white dwarf threshold: 150 ly.
pub fn default_white_dwarf_threshold() -> (r: i64)
    ensures
        r == 150_000,
{
    150_000
}

/// Default result template.
pub fn default_result_format() -> (r: String)
    ensures
        r@ == default_format_text(),
{
    String::from_str("🚀 {jumps} jumps to {system} ({distance:.1}ly) via {route}")
}

/// Fuel estimates are off by default.
pub fn default_show_fuel() -> (r: bool)
    ensures
        !r,
{
    false
}

/// Time estimates are off by default.
pub fn default_show_time() -> (r: bool)
    ensures
        !r,
{
    false
}

impl Default for ShipConfig {
    fn default() -> (r: Self)
        ensures
            r.name@ == "Unknown Ship"@,
            r.laden_jump_range == 30_000,
            r.max_jump_range is None,
    {
        ShipConfig {
            name: String::from_str("Unknown Ship"),
            laden_jump_range: 30_000,
            max_jump_range: None,
        }
    }
}

impl Default for Config {
    fn default() -> (r: Self)
        ensures
            r.cmdr_name@ == Seq::<char>::empty(),
            r.edsm_api_key is None,
            r.ship.name@ == "Unknown Ship"@,
            r.ship.laden_jump_range == 30_000,
            r.ship.max_jump_range is None,
            r.cache_timeout_seconds == 300,
            !r.debug_mode,
            r.neutron_highway_threshold_ly == 500_000,
            r.white_dwarf_threshold_ly == 150_000,
            r.result_format@ == default_format_text(),
            !r.show_fuel_estimates,
            !r.show_time_estimates,
    {
        Config {
            cmdr_name: String::new(),
            edsm_api_key: None,
            ship: ShipConfig::default(),
            cache_timeout_seconds: default_cache_timeout(),
            debug_mode: false,
            neutron_highway_threshold_ly: default_neutron_threshold(),
            white_dwarf_threshold_ly: default_white_dwarf_threshold(),
            result_format: default_result_format(),
            show_fuel_estimates: default_show_fuel(),
            show_time_estimates: default_show_time(),
        }
    }
}

/// The first problem with a configuration, checked in this order, or none.
pub open spec fn config_problem(c: &Config) -> Option<Seq<char>> {
    if c.cmdr_name@.len() == 0 {
        Some("CMDR name is required but not configured"@)
    } else if c.ship.laden_jump_range <= 0 {
        Some("Ship laden jump range must be greater than 0"@)
    } else if c.cache_timeout_seconds == 0 {
        Some("Cache timeout must be greater than 0"@)
    } else if c.neutron_highway_threshold_ly < 0 {
        Some("Neutron highway threshold must be non-negative"@)
    } else if c.white_dwarf_threshold_ly < 0 {
        Some("White dwarf threshold must be non-negative"@)
    } else {
        None
    }
}

/// Checks a configuration: a commander name, a positive jump range, a non-zero cache
/// lifetime and non-negative thresholds.
pub fn validate_config(config: &Config) -> (r: Result<(), EdjcError>)
    ensures
        r.is_ok() <==> config_problem(config) is None,
        r matches Err(e) ==> e matches EdjcError::Config(m) && Some(m@) == config_problem(config),
{
    if config.cmdr_name.as_str().unicode_len() == 0 {
        return Err(EdjcError::Config(String::from_str("CMDR name is required but not configured")));
    }
    if config.ship.laden_jump_range <= 0 {
        return Err(
            EdjcError::Config(String::from_str("Ship laden jump range must be greater than 0")),
        );
    }
    if config.cache_timeout_seconds == 0 {
        return Err(EdjcError::Config(String::from_str("Cache timeout must be greater than 0")));
    }
    if config.neutron_highway_threshold_ly < 0 {
        return Err(
            EdjcError::Config(String::from_str("Neutron highway threshold must be non-negative")),
        );
    }
    if config.white_dwarf_threshold_ly < 0 {
        return Err(
            EdjcError::Config(String::from_str("White dwarf threshold must be non-negative")),
        );
    }
    Ok(())
}

/// `part` appended to the path `base` with one separator between them.
pub open spec fn joined(base: Seq<char>, part: Seq<char>) -> Seq<char> {
    if base.len() == 0 {
        part
    } else if base.last() == '/' {
        base + part
    } else {
        base + "/"@ + part
    }
}

/// Appends the relative path `part` to `base`, with one separator between them.
pub fn join_path(base: &str, part: &str) -> (r: String)
    ensures
        r@ == joined(base@, part@),
{
    let n = base.unicode_len();
    if n == 0 {
        String::from_str(part)
    } else if base.get_char(n - 1) == '/' {
        String::from_str(base).concat(part)
    } else {
        String::from_str(base).concat("/").concat(part)
    }
}

/// The settings directory: under `XDG_CONFIG_HOME`, else `APPDATA`, else `HOME/.config`,
/// else `./config`. The three values are those variables, where set.
pub open spec fn config_directory(
    xdg_config_home: Option<Seq<char>>,
    appdata: Option<Seq<char>>,
    home: Option<Seq<char>>,
) -> Seq<char> {
    match xdg_config_home {
        Some(x) => joined(x, "edjc"@),
        None => match appdata {
            Some(a) => joined(a, "EDJC"@),
            None => match home {
                Some(h) => joined(joined(h, ".config"@), "edjc"@),
                None => "./config"@,
            },
        },
    }
}

/// The view of an optional string.
pub open spec fn opt_view(s: Option<&str>) -> Option<Seq<char>> {
    match s {
        Some(t) => Some(t@),
        None => None,
    }
}

/// The settings directory for the given environment values.
pub fn get_config_directory(
    xdg_config_home: Option<&str>,
    appdata: Option<&str>,
    home: Option<&str>,
) -> (r: String)
    ensures
        r@ == config_directory(opt_view(xdg_config_home), opt_view(appdata), opt_view(home)),
{
    match xdg_config_home {
        Some(x) => join_path(x, "edjc"),
        None => match appdata {
            Some(a) => join_path(a, "EDJC"),
            None => match home {
                Some(h) => {
                    let dot_config = join_path(h, ".config");
                    join_path(dot_config.as_str(), "edjc")
                },
                None => String::from_str("./config"),
            },
        },
    }
}

/// The settings file path for the given environment values: `edjc.toml` in the settings
/// directory.
pub fn get_config_path(xdg_config_home: Option<&str>, appdata: Option<&str>, home: Option<&str>) -> (r:
    String)
    ensures
        r@ == joined(
            config_directory(opt_view(xdg_config_home), opt_view(appdata), opt_view(home)),
            "edjc.toml"@,
        ),
{
    let dir = get_config_directory(xdg_config_home, appdata, home);
    join_path(dir.as_str(), "edjc.toml")
}

} // verus!
