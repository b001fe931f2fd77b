# cjk_token_reducer (verified core)

The verified library (`src/`) holds the error classification of the CJK token
reducer (categories, advice, retry decisions, errors built from HTTP statuses,
error messages), the configuration sections with their defaults, the reading
of the cache override value, and the decisions of local translation. Each
public function states its behaviour in `requires`/`ensures` and Verus proves
it; the `lemma_*` proof functions state properties that span functions.

`app/` holds what cannot be verified: reading the configuration file and the
environment, the `serde` forms of the configuration (whose `threshold` is a
float), the conversions from `reqwest` values, and the asynchronous entry
point of local translation.

- `src/error.rs` — `ErrorCategory`, `Error`, `HttpFailure`, messages and laws
- `src/status.rs` — `HttpStatus` and the calls into `reqwest::StatusCode`
- `src/config.rs` — `CacheConfig`, `ResilienceConfig`, `PreserveConfig`, environment overrides
- `src/local_translator.rs` — `Language`, model source languages, `translate_local`
- `src/text.rs` — decimal rendering of integers
