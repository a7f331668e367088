//! Coordinate client: resolves system names and commander locations through a remote star
//! database, memoizing answers in a bounded cache whose entries expire.
//!
//! The remote requests themselves are made by the caller. A lookup is a step function: asked
//! without a fetched response, it answers from the cache or asks for a fetch; handed the
//! fetched response, it reads it, stores a successful answer and returns it.
use vstd::prelude::*;
use vstd::string::*;

use moka::sync::Cache;

use crate::jump_calculator::{coordinates_in_span, in_span};
use crate::text::{all_ascii, contains_text, is_ascii_lowered, lowercase, lowercase_of, occurs_in};
use crate::types::{EdjcError, SystemCoordinates};

verus! {

#[verifier::external_type_specification]
#[verifier::external_body]
#[verifier::reject_recursive_types(K)]
#[verifier::reject_recursive_types(V)]
#[verifier::reject_recursive_types(S)]
pub struct ExCache<K, V, S>(Cache<K, V, S>);

/// How long a cached answer stays fresh.
pub const CACHE_TTL_SECONDS: u64 = 3600;

/// Most answers the cache holds at once.
pub const CACHE_CAPACITY: u64 = 1000;

/// Longest time-to-live the cache accepts: a thousand years of 365 days.
pub const MAX_TTL_SECONDS: u64 = 31_536_000_000;

/// Answer code of a successful commander lookup.
pub const MSG_OK: i64 = 100;

/// Squared distance, in square milli-light-years, under which a system counts as the origin.
pub const ORIGIN_TOLERANCE_SQUARED: u64 = 1_000_000;

/// A cached answer.
#[derive(Clone, Debug)]
pub enum CachedValue {
    Coordinates(SystemCoordinates),
    Location(String),
}

/// Coordinates as the remote service reports them, in milli-light-years.
#[derive(Clone, Debug)]
pub struct EdsmCoordinates {
    pub x: i64,
    pub y: i64,
    pub z: i64,
}

/// The primary star as the remote service reports it.
#[derive(Clone, Debug)]
pub struct EdsmStar {
    pub star_type: Option<String>,
    pub sub_type: Option<String>,
}

/// A system lookup answer.
#[derive(Clone, Debug)]
pub struct EdsmSystemResponse {
    pub name: String,
    pub coords: Option<EdsmCoordinates>,
    pub primary_star: Option<EdsmStar>,
}

/// A commander position answer.
#[derive(Clone, Debug)]
pub struct EdsmCommanderResponse {
    pub msg_num: Option<i64>,
    pub msg: Option<String>,
    pub system: Option<String>,
}

/// What a lookup step decides.
#[derive(Debug)]
pub enum Lookup<T> {
    /// The answer, from the cache or from the response handed in.
    Done(Result<T, EdjcError>),
    /// Nothing fresh is cached: fetch and call again with the response.
    Fetch,
}

/// Relies on moka's `CacheBuilder`: a cache whose entries expire `ttl_seconds` after they
/// were written, holding at most `capacity` entries. The builder panics on a time-to-live
/// above a thousand years.
#[verifier::external_body]
fn new_cache(ttl_seconds: u64, capacity: u64) -> (r: Cache<String, CachedValue>)
    requires
        ttl_seconds <= MAX_TTL_SECONDS,
{
    Cache::builder().time_to_live(std::time::Duration::from_secs(ttl_seconds)).max_capacity(
        capacity,
    ).build()
}

/// Relies on moka's `Cache::get`: the value stored under `key`, if it is still there and has
/// not expired. Whether it is depends on time and on eviction, so nothing is stated of it.
#[verifier::external_body]
fn cache_get(cache: &Cache<String, CachedValue>, key: &String) -> (r: Option<CachedValue>) {
    cache.get(key)
}

/// Relies on moka's `Cache::insert`: stores `value` under `key`, replacing what was there.
#[verifier::external_body]
fn cache_insert(cache: &Cache<String, CachedValue>, key: String, value: CachedValue) {
    cache.insert(key, value)
}

/// The cache key of a system name.
pub open spec fn system_key(name: Seq<char>) -> Seq<char> {
    "coords:"@ + lowercase_of(name)
}

/// The cache key of a commander name.
pub open spec fn commander_key(name: Seq<char>) -> Seq<char> {
    "cmdr_location:"@ + lowercase_of(name)
}

/// The cache key of a system name: the name lower-cased, behind a prefix.
pub fn system_cache_key(name: &str) -> (r: String)
    ensures
        r@ == system_key(name@),
        all_ascii(name@) ==> is_ascii_lowered(name@, lowercase_of(name@)),
{
    let lowered = lowercase(name);
    String::from_str("coords:").concat(lowered.as_str())
}

/// The cache key of a commander name: the name lower-cased, behind a prefix.
pub fn commander_cache_key(name: &str) -> (r: String)
    ensures
        r@ == commander_key(name@),
        all_ascii(name@) ==> is_ascii_lowered(name@, lowercase_of(name@)),
{
    let lowered = lowercase(name);
    String::from_str("cmdr_location:").concat(lowered.as_str())
}

/// Two ASCII names that differ only in letter case share one cache entry.
pub proof fn lemma_case_variants_share_key(a: Seq<char>, b: Seq<char>)
    requires
        all_ascii(a),
        all_ascii(b),
        a.len() == b.len(),
        forall|i: int| 0 <= i < a.len() ==> crate::text::ascii_fold(a[i]) == crate::text::ascii_fold(b[i]),
        is_ascii_lowered(a, lowercase_of(a)),
        is_ascii_lowered(b, lowercase_of(b)),
    ensures
        system_key(a) == system_key(b),
        commander_key(a) == commander_key(b),
{
    crate::text::lemma_ascii_lowered_agree(a, b, lowercase_of(a), lowercase_of(b));
}

/// The characters of an optional string, empty when absent.
pub open spec fn text_or_empty(s: Option<String>) -> Seq<char> {
    match s {
        Some(t) => t@,
        None => Seq::empty(),
    }
}

/// A star reported with these type and sub-type fields is a neutron star.
pub open spec fn is_neutron(star_type: Seq<char>, sub_type: Seq<char>) -> bool {
    occurs_in(star_type, "Neutron"@) || occurs_in(sub_type, "Neutron"@)
}

/// A star reported with these type and sub-type fields is a white dwarf.
pub open spec fn is_white_dwarf(star_type: Seq<char>, sub_type: Seq<char>) -> bool {
    occurs_in(star_type, "White Dwarf"@) || occurs_in(sub_type, "DA"@) || occurs_in(sub_type, "DB"@)
        || occurs_in(sub_type, "DC"@)
}

/// The neutron-star and white-dwarf flags of an optional primary star.
pub open spec fn star_flags(star: Option<EdsmStar>) -> (bool, bool) {
    match star {
        Some(s) => (
            is_neutron(text_or_empty(s.star_type), text_or_empty(s.sub_type)),
            is_white_dwarf(text_or_empty(s.star_type), text_or_empty(s.sub_type)),
        ),
        None => (false, false),
    }
}

fn text_of(s: &Option<String>) -> (r: &str)
    ensures
        r@ == text_or_empty(*s),
{
    proof {
        reveal_strlit("");
    }
    match s {
        Some(t) => t.as_str(),
        None => "",
    }
}

/// Whether the primary star is a neutron star, and whether it is a white dwarf, by the
/// literal tokens of its type fields (case-sensitive).
pub fn classify_star(star: &Option<EdsmStar>) -> (r: (bool, bool))
    ensures
        r == star_flags(*star),
{
    proof {
        reveal_strlit("");
    }
    match star {
        Some(s) => {
            let star_type = text_of(&s.star_type);
            let sub_type = text_of(&s.sub_type);
            let neutron = contains_text(star_type, "Neutron") || contains_text(sub_type, "Neutron");
            let white_dwarf = contains_text(star_type, "White Dwarf") || contains_text(sub_type, "DA")
                || contains_text(sub_type, "DB") || contains_text(sub_type, "DC");
            (neutron, white_dwarf)
        },
        None => (false, false),
    }
}

/// What reading a system answer yields for the name `requested`.
pub open spec fn system_answer(
    r: Result<SystemCoordinates, EdjcError>,
    requested: Seq<char>,
    resp: EdsmSystemResponse,
) -> bool {
    match resp.coords {
        None => r matches Err(EdjcError::SystemNotFound(n)) && n@ == requested,
        Some(c) => match r {
            Ok(sys) => {
                &&& sys.name@ == resp.name@
                &&& sys.x == c.x && sys.y == c.y && sys.z == c.z
                &&& (sys.has_neutron_star, sys.has_white_dwarf) == star_flags(resp.primary_star)
                &&& coordinates_in_span(&sys)
            },
            Err(e) => {
                &&& e matches EdjcError::InvalidCoordinates(n) && n@ == resp.name@
                &&& !(-crate::jump_calculator::MAX_COORDINATE <= c.x <= crate::jump_calculator::MAX_COORDINATE
                    && -crate::jump_calculator::MAX_COORDINATE <= c.y <= crate::jump_calculator::MAX_COORDINATE
                    && -crate::jump_calculator::MAX_COORDINATE <= c.z <= crate::jump_calculator::MAX_COORDINATE)
            },
        },
    }
}

/// Reads a system answer: no coordinates means the system `requested` is not found;
/// coordinates out of span are invalid; otherwise the system with its star flags.
pub fn coordinates_from_response(requested: &str, resp: &EdsmSystemResponse) -> (r: Result<
    SystemCoordinates,
    EdjcError,
>)
    ensures
        system_answer(r, requested@, *resp),
{
    match &resp.coords {
        None => Err(EdjcError::SystemNotFound(String::from_str(requested))),
        Some(c) => {
            let (has_neutron_star, has_white_dwarf) = classify_star(&resp.primary_star);
            let sys = SystemCoordinates {
                name: resp.name.clone(),
                x: c.x,
                y: c.y,
                z: c.z,
                has_neutron_star,
                has_white_dwarf,
            };
            if in_span(&sys) {
                Ok(sys)
            } else {
                Err(EdjcError::InvalidCoordinates(resp.name.clone()))
            }
        },
    }
}

/// What reading a commander answer yields for the commander `cmdr`.
pub open spec fn commander_answer(
    r: Result<String, EdjcError>,
    cmdr: Seq<char>,
    resp: EdsmCommanderResponse,
) -> bool {
    let found = match resp.system {
        Some(s) => r matches Ok(t) && t@ == s@,
        None => r matches Err(EdjcError::CmdrNotFound(n)) && n@ == cmdr,
    };
    match resp.msg_num {
        Some(n) => if n != MSG_OK {
            r matches Err(EdjcError::EdsmApi(code, m)) && code == n && m@ == (match resp.msg {
                Some(t) => t@,
                None => "Unknown error"@,
            })
        } else {
            found
        },
        None => found,
    }
}

/// Reads a commander answer: an answer code other than success is an API error carrying the
/// code and message; no system means the commander is not found.
pub fn location_from_response(cmdr: &str, resp: &EdsmCommanderResponse) -> (r: Result<
    String,
    EdjcError,
>)
    ensures
        commander_answer(r, cmdr@, *resp),
{
    if let Some(n) = resp.msg_num {
        if n != MSG_OK {
            let msg = match &resp.msg {
                Some(t) => t.clone(),
                None => String::from_str("Unknown error"),
            };
            return Err(EdjcError::EdsmApi(n, msg));
        }
    }
    match &resp.system {
        Some(s) => Ok(s.clone()),
        None => Err(EdjcError::CmdrNotFound(String::from_str(cmdr))),
    }
}

/// A probe answer shows a live service: the reference system was found at the origin.
pub open spec fn probe_ok(r: Result<SystemCoordinates, EdjcError>) -> bool {
    match r {
        Ok(c) => c.x * c.x + c.y * c.y + c.z * c.z < ORIGIN_TOLERANCE_SQUARED,
        Err(_) => false,
    }
}

/// Name of the reference system used to probe the service.
pub open spec fn probe_system() -> Seq<char> {
    "Sol"@
}

/// The coordinate client: a bounded cache of answers with a fixed time-to-live.
pub struct EdsmClient {
    cache: Cache<String, CachedValue>,
}

impl EdsmClient {
    /// A client with an empty cache whose answers stay fresh for an hour.
    pub fn new() -> (r: Self) {
        EdsmClient { cache: new_cache(CACHE_TTL_SECONDS, CACHE_CAPACITY) }
    }

    /// A client with an empty cache whose answers stay fresh for `ttl_seconds`.
    pub fn with_ttl(ttl_seconds: u64) -> (r: Self)
        requires
            0 < ttl_seconds <= MAX_TTL_SECONDS,
    {
        EdsmClient { cache: new_cache(ttl_seconds, CACHE_CAPACITY) }
    }

    /// A lookup step for a system's coordinates.
    ///
    /// Without `fetched`, answers from the cache or asks for a fetch of `system_name`. With
    /// it, reads the response (or passes on the transport error), stores a successful answer
    /// under the system's key, and returns the answer.
    pub fn get_system_coordinates(
        &self,
        system_name: &str,
        fetched: Option<Result<EdsmSystemResponse, EdjcError>>,
    ) -> (r: Lookup<SystemCoordinates>)
        ensures
            fetched is None ==> (r is Fetch || r matches Lookup::Done(Ok(_))),
            fetched matches Some(Err(e)) ==> r == Lookup::<SystemCoordinates>::Done(Err(e)),
            fetched matches Some(Ok(resp)) ==> r matches Lookup::Done(res) && system_answer(
                res,
                system_name@,
                resp,
            ),
    {
        let key = system_cache_key(system_name);
        match fetched {
            None => match cache_get(&self.cache, &key) {
                Some(CachedValue::Coordinates(c)) => Lookup::Done(Ok(c)),
                _ => Lookup::Fetch,
            },
            Some(Err(e)) => Lookup::Done(Err(e)),
            Some(Ok(resp)) => {
                let res = coordinates_from_response(system_name, &resp);
                if let Ok(c) = &res {
                    cache_insert(&self.cache, key, CachedValue::Coordinates(c.clone()));
                }
                Lookup::Done(res)
            },
        }
    }

    /// A lookup step for a commander's current system, in the same way as
    /// `get_system_coordinates`.
    pub fn get_commander_location(
        &self,
        cmdr_name: &str,
        fetched: Option<Result<EdsmCommanderResponse, EdjcError>>,
    ) -> (r: Lookup<String>)
        ensures
            fetched is None ==> (r is Fetch || r matches Lookup::Done(Ok(_))),
            fetched matches Some(Err(e)) ==> r == Lookup::<String>::Done(Err(e)),
            fetched matches Some(Ok(resp)) ==> r matches Lookup::Done(res) && commander_answer(
                res,
                cmdr_name@,
                resp,
            ),
    {
        let key = commander_cache_key(cmdr_name);
        match fetched {
            None => match cache_get(&self.cache, &key) {
                Some(CachedValue::Location(s)) => Lookup::Done(Ok(s)),
                _ => Lookup::Fetch,
            },
            Some(Err(e)) => Lookup::Done(Err(e)),
            Some(Ok(resp)) => {
                let res = location_from_response(cmdr_name, &resp);
                if let Ok(s) = &res {
                    cache_insert(&self.cache, key, CachedValue::Location(s.clone()));
                }
                Lookup::Done(res)
            },
        }
    }

    /// Whether the answer for the reference system shows a live service: it was found, within
    /// one light-year of the origin.
    pub fn test_connection(probe: &Result<SystemCoordinates, EdjcError>) -> (r: bool)
        ensures
            r == probe_ok(*probe),
    {
        match probe {
            Ok(c) => {
                if !in_span(c) {
                    proof {
                        lemma_square_nonnegative(c.x as int);
                        lemma_square_nonnegative(c.y as int);
                        lemma_square_nonnegative(c.z as int);
                        if !(-crate::jump_calculator::MAX_COORDINATE <= c.x <= crate::jump_calculator::MAX_COORDINATE) {
                            lemma_square_large(c.x as int);
                        } else if !(-crate::jump_calculator::MAX_COORDINATE <= c.y <= crate::jump_calculator::MAX_COORDINATE) {
                            lemma_square_large(c.y as int);
                        } else {
                            lemma_square_large(c.z as int);
                        }
                    }
                    return false;
                }
                let x = c.x as i128;
                let y = c.y as i128;
                let z = c.z as i128;
                proof {
                    lemma_square_bounded(x as int);
                    lemma_square_bounded(y as int);
                    lemma_square_bounded(z as int);
                }
                x * x + y * y + z * z < ORIGIN_TOLERANCE_SQUARED as i128
            },
            Err(_) => false,
        }
    }
}

proof fn lemma_square_nonnegative(v: int)
    ensures
        v * v >= 0,
{
    assert(v * v >= 0) by (nonlinear_arith);
}

proof fn lemma_square_large(v: int)
    requires
        v < -1000 || v > 1000,
    ensures
        v * v > 1_000_000,
{
    if v > 1000 {
        assert(v * v > 1_000_000) by (nonlinear_arith)
            requires
                v > 1000,
        ;
    } else {
        assert(v * v > 1_000_000) by (nonlinear_arith)
            requires
                v < -1000,
        ;
    }
}

proof fn lemma_square_bounded(v: int)
    requires
        -1_000_000_000_000_000 <= v <= 1_000_000_000_000_000,
    ensures
        0 <= v * v <= 1_000_000_000_000_000_000_000_000_000_000,
{
    assert(0 <= v * v <= 1_000_000_000_000_000_000_000_000_000_000) by (nonlinear_arith)
        requires
            -1_000_000_000_000_000 <= v <= 1_000_000_000_000_000,
    ;
}

} // verus!
