//! Configuration sections and their defaults, and how an environment
//! override of the cache switch is read.
use vstd::prelude::*;

verus! {

/// Cache configuration (every field missing from a config file takes its default)
#[derive(Debug, Clone)]
pub struct CacheConfig {
    pub enabled: bool,
    pub ttl_days: u32,
    pub max_size_mb: u32,
}

impl Default for CacheConfig {
    fn default() -> (r: Self)
        ensures
            r.enabled,
            r.ttl_days == 30,
            r.max_size_mb == 10,
    {
        CacheConfig { enabled: true, ttl_days: 30, max_size_mb: 10 }
    }
}

/// Resilience configuration for retry, timeout, and circuit breaker
#[derive(Debug, Clone)]
pub struct ResilienceConfig {
    /// Request timeout in seconds (default: 30)
    pub timeout_secs: u64,
    /// Connection timeout in seconds (default: 5)
    pub connect_timeout_secs: u64,
    /// Maximum retry attempts for transient failures (default: 3)
    pub max_retries: u32,
    /// Base delay for exponential backoff in milliseconds (default: 200)
    pub retry_base_delay_ms: u64,
    /// Circuit breaker failure threshold before opening (default: 5)
    pub circuit_breaker_threshold: u32,
    /// Circuit breaker reset timeout in seconds (default: 60)
    pub circuit_breaker_reset_secs: u64,
    /// Enable graceful fallback to passthrough on failure (default: true)
    pub fallback_to_passthrough: bool,
}

impl Default for ResilienceConfig {
    fn default() -> (r: Self)
        ensures
            r.timeout_secs == 30,
            r.connect_timeout_secs == 5,
            r.max_retries == 3,
            r.retry_base_delay_ms == 200,
            r.circuit_breaker_threshold == 5,
            r.circuit_breaker_reset_secs == 60,
            r.fallback_to_passthrough,
    {
        ResilienceConfig {
            timeout_secs: 30,
            connect_timeout_secs: 5,
            max_retries: 3,
            retry_base_delay_ms: 200,
            circuit_breaker_threshold: 5,
            circuit_breaker_reset_secs: 60,
            fallback_to_passthrough: true,
        }
    }
}

/// Which kinds of content are preserved as they are.
#[derive(Debug, Clone)]
pub struct PreserveConfig {
    /// Preserve wiki-style markers
    pub wiki_markers: bool,
    /// Preserve highlight markers
    pub highlight_markers: bool,
    /// Preserve English terms
    pub english_terms: bool,
}

impl Default for PreserveConfig {
    fn default() -> (r: Self)
        ensures
            r.wiki_markers,
            r.highlight_markers,
            r.english_terms,
    {
        PreserveConfig { wiki_markers: true, highlight_markers: true, english_terms: true }
    }
}

impl PreserveConfig {
    /// Every switch on.
    pub fn all() -> (r: Self)
        ensures
            r.wiki_markers,
            r.highlight_markers,
            r.english_terms,
    {
        PreserveConfig { wiki_markers: true, highlight_markers: true, english_terms: true }
    }

    /// Every switch off.
    pub fn basic() -> (r: Self)
        ensures
            !r.wiki_markers,
            !r.highlight_markers,
            !r.english_terms,
    {
        PreserveConfig { wiki_markers: false, highlight_markers: false, english_terms: false }
    }
}

/// What `str::to_lowercase` returns for a string (its Unicode lowercase
/// mapping, which does not depend on the locale).
pub uninterp spec fn lowercase(s: Seq<char>) -> Seq<char>;

/// `str::to_lowercase`; its result is named by `lowercase`.
#[verifier::external_body]
fn to_lowercase(s: &str) -> (r: String)
    ensures
        r@ == lowercase(s@),
{
    s.to_lowercase()
}

/// Whether an override value switches the cache on, given the value and its
/// lowercase form: the lowercase form is `true`, or the value is `1`.
pub fn cache_flag_from(lowered: &str, raw: &str) -> (r: bool)
    ensures
        r == (lowered@ == "true"@ || raw@ == "1"@),
{
    let lowered = String::from_str(lowered);
    let raw = String::from_str(raw);
    lowered == String::from_str("true") || raw == String::from_str("1")
}

/// Whether the value of the cache override (`CJK_TOKEN_CACHE_ENABLED`)
/// switches the cache on: `true` in any letter case, or `1`.
pub fn parse_cache_enabled(val: &str) -> (r: bool)
    ensures
        r == (lowercase(val@) == "true"@ || val@ == "1"@),
{
    let lowered = to_lowercase(val);
    cache_flag_from(lowered.as_str(), val)
}

/// The environment overrides of a configuration: for each of
/// `CJK_TOKEN_OUTPUT_LANG`, `CJK_TOKEN_CACHE_ENABLED` and `CJK_TOKEN_BACKEND`,
/// the variable's value where it is set. (`CJK_TOKEN_THRESHOLD` overrides a
/// floating-point setting and is applied outside this library.)
#[derive(Debug, Clone)]
pub struct EnvOverrides {
    pub output_language: Option<String>,
    pub cache_enabled: Option<String>,
    pub translation_backend: Option<String>,
}

/// Whether a cache override value switches the cache on.
pub open spec fn cache_enabled_value(val: Seq<char>) -> bool {
    lowercase(val) == "true"@ || val == "1"@
}

/// Apply the environment overrides to the settings read from the config file
/// (or their defaults): each override that is set wins over the file, each
/// one that is not set leaves the setting as it was.
pub fn apply_env_overrides(
    output_language: &mut String,
    cache_enabled: &mut bool,
    translation_backend: &mut String,
    env: EnvOverrides,
)
    ensures
        final(output_language)@ == (match env.output_language {
            Some(v) => v@,
            None => old(output_language)@,
        }),
        *final(cache_enabled) == (match env.cache_enabled {
            Some(v) => cache_enabled_value(v@),
            None => *old(cache_enabled),
        }),
        env.cache_enabled matches Some(v) ==> (*final(cache_enabled) <==> (lowercase(v@)
            == "true"@ || v@ == "1"@)),
        final(translation_backend)@ == (match env.translation_backend {
            Some(v) => v@,
            None => old(translation_backend)@,
        }),
{
    match env.output_language {
        Some(v) => {
            *output_language = v;
        },
        None => {},
    }
    match env.cache_enabled {
        Some(v) => {
            *cache_enabled = parse_cache_enabled(v.as_str());
        },
        None => {},
    }
    match env.translation_backend {
        Some(v) => {
            *translation_backend = v;
        },
        None => {},
    }
}

/// A cache override switches the cache on exactly when the value is `1`
/// or its lowercase form is `true`; every other value switches it off.
pub proof fn lemma_cache_override_values(v: Seq<char>)
    ensures
        cache_enabled_value("1"@),
        lowercase(v) == "true"@ ==> cache_enabled_value(v),
        (lowercase(v) != "true"@ && v != "1"@) ==> !cache_enabled_value(v),
{
}

} // verus!
