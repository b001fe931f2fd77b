use vstd::prelude::*;
use crate::status::{status_display, status_text, HttpStatus};
use serde_json::Error as JsonError;
use crate::text::{decimal, decimal_string};

verus! {

/// Error categories for actionable diagnostics
#[derive(Debug, Clone, Copy, PartialEq, Eq)]
pub enum ErrorCategory {
    /// Authentication/authorization issues - check API key
    Auth,
    /// Rate limiting - slow down requests
    RateLimit,
    /// Quota exceeded - upgrade plan or wait
    Quota,
    /// Network connectivity - check internet connection
    Network,
    /// Server-side error - retry later
    Server,
    /// Client-side error - fix request
    Client,
    /// Configuration error - fix config file
    Config,
    /// Cache error - check disk space/permissions
    Cache,
    /// Unknown error
    Unknown,
}

/// The advice text attached to each category.
pub open spec fn advice_text(c: ErrorCategory) -> Seq<char> {
    match c {
        ErrorCategory::Auth => "Check your API credentials or authentication setup"@,
        ErrorCategory::RateLimit => "Too many requests. Wait and retry with backoff"@,
        ErrorCategory::Quota => "API quota exceeded. Wait for reset or upgrade plan"@,
        ErrorCategory::Network => "Check internet connection and firewall settings"@,
        ErrorCategory::Server => "Google Translate service issue. Retry in a few minutes"@,
        ErrorCategory::Client => "Invalid request. Check input text encoding"@,
        ErrorCategory::Config => "Fix configuration file syntax or values"@,
        ErrorCategory::Cache => "Check disk space and file permissions for cache directory"@,
        ErrorCategory::Unknown => "Unexpected error. Check logs for details"@,
    }
}

impl ErrorCategory {
    /// Get actionable advice for this error category
    pub fn advice(&self) -> (r: &'static str)
        ensures
            r@ == advice_text(*self),
    {
        match self {
            ErrorCategory::Auth => "Check your API credentials or authentication setup",
            ErrorCategory::RateLimit => "Too many requests. Wait and retry with backoff",
            ErrorCategory::Quota => "API quota exceeded. Wait for reset or upgrade plan",
            ErrorCategory::Network => "Check internet connection and firewall settings",
            ErrorCategory::Server => "Google Translate service issue. Retry in a few minutes",
            ErrorCategory::Client => "Invalid request. Check input text encoding",
            ErrorCategory::Config => "Fix configuration file syntax or values",
            ErrorCategory::Cache => "Check disk space and file permissions for cache directory",
            ErrorCategory::Unknown => "Unexpected error. Check logs for details",
        }
    }
}

/// Every category carries advice: its text is never empty.
pub proof fn lemma_advice_nonempty(c: ErrorCategory)
    ensures
        advice_text(c).len() > 0,
{
    reveal_strlit("Check your API credentials or authentication setup");
    reveal_strlit("Too many requests. Wait and retry with backoff");
    reveal_strlit("API quota exceeded. Wait for reset or upgrade plan");
    reveal_strlit("Check internet connection and firewall settings");
    reveal_strlit("Google Translate service issue. Retry in a few minutes");
    reveal_strlit("Invalid request. Check input text encoding");
    reveal_strlit("Fix configuration file syntax or values");
    reveal_strlit("Check disk space and file permissions for cache directory");
    reveal_strlit("Unexpected error. Check logs for details");
}


#[verifier::external_type_specification]
#[verifier::external_body]
pub struct ExIoError(std::io::Error);

#[verifier::external_type_specification]
#[verifier::external_body]
pub struct ExJsonError(JsonError);

/// What the library reads of a failed HTTP exchange (a `reqwest::Error`):
/// whether it timed out, whether connecting failed, the response status if
/// there was one, and the error's own text.
#[derive(Debug)]
pub struct HttpFailure {
    pub timeout: bool,
    pub connect: bool,
    pub status: Option<HttpStatus>,
    pub message: String,
}

/// Unified crate-level error type
#[derive(Debug)]
pub enum Error {
    Io(std::io::Error),
    Json(JsonError),
    Http(HttpFailure),
    RateLimited {
        /// Server-suggested retry delay from Retry-After header
        retry_after_secs: Option<u64>,
    },
    RetryableHttp { status: HttpStatus },
    AuthError { status: HttpStatus },
    QuotaExceeded { status: HttpStatus },
    Translation { message: String },
    Config { message: String },
    Cache { message: String },
    CircuitOpen(u64),
    Timeout,
    ConnectionFailed,
}

/// Crate-level Result type alias for convenience
pub type Result<T> = std::result::Result<T, Error>;

/// The category of an HTTP status code.
pub open spec fn status_category(code: u16) -> ErrorCategory {
    if code == 401 || code == 403 {
        ErrorCategory::Auth
    } else if code == 429 {
        ErrorCategory::RateLimit
    } else if code == 402 || code == 451 {
        ErrorCategory::Quota
    } else if 400 <= code <= 499 {
        ErrorCategory::Client
    } else if 500 <= code <= 599 {
        ErrorCategory::Server
    } else {
        ErrorCategory::Unknown
    }
}

/// The category of a failed HTTP exchange.
pub open spec fn http_failure_category(f: HttpFailure) -> ErrorCategory {
    if f.timeout || f.connect {
        ErrorCategory::Network
    } else {
        match f.status {
            Some(s) => status_category(s@),
            None => ErrorCategory::Unknown,
        }
    }
}

/// The category of an error.
pub open spec fn error_category(e: Error) -> ErrorCategory {
    match e {
        Error::Io(_) => ErrorCategory::Cache,
        Error::Json(_) => ErrorCategory::Client,
        Error::Http(f) => http_failure_category(f),
        Error::RateLimited { .. } => ErrorCategory::RateLimit,
        Error::RetryableHttp { status } => status_category(status@),
        Error::AuthError { .. } => ErrorCategory::Auth,
        Error::QuotaExceeded { .. } => ErrorCategory::Quota,
        Error::Translation { .. } => ErrorCategory::Client,
        Error::Config { .. } => ErrorCategory::Config,
        Error::Cache { .. } => ErrorCategory::Cache,
        Error::CircuitOpen(_) => ErrorCategory::Server,
        Error::Timeout => ErrorCategory::Network,
        Error::ConnectionFailed => ErrorCategory::Network,
    }
}

/// The categories whose errors are worth retrying.
pub open spec fn category_is_retryable(c: ErrorCategory) -> bool {
    c == ErrorCategory::RateLimit || c == ErrorCategory::Server || c == ErrorCategory::Network
}

/// The Retry-After delay an error carries.
pub open spec fn error_retry_after(e: Error) -> Option<u64> {
    match e {
        Error::RateLimited { retry_after_secs } => retry_after_secs,
        _ => None,
    }
}

/// `r` is the error made from `status` and the Retry-After value `retry`.
pub open spec fn is_status_error(status: HttpStatus, retry: Option<u64>, r: Error) -> bool {
    let code = status@;
    if code == 401 || code == 403 {
        r == Error::AuthError { status }
    } else if code == 429 {
        r == Error::RateLimited { retry_after_secs: retry }
    } else if code == 402 || code == 451 {
        r == Error::QuotaExceeded { status }
    } else if 500 <= code <= 599 {
        r == Error::RetryableHttp { status }
    } else {
        r matches Error::Translation { message } && message@ == "HTTP "@ + decimal(code as nat)
    }
}

impl Error {
    /// Classify error into category for handling decisions
    pub fn category(&self) -> (r: ErrorCategory)
        ensures
            r == error_category(*self),
    {
        match self {
            Error::Io(_) => ErrorCategory::Cache,
            Error::Json(_) => ErrorCategory::Client,
            Error::Http(f) => {
                if f.timeout || f.connect {
                    ErrorCategory::Network
                } else {
                    match &f.status {
                        Some(status) => Self::category_from_status(status),
                        None => ErrorCategory::Unknown,
                    }
                }
            },
            Error::RateLimited { .. } => ErrorCategory::RateLimit,
            Error::RetryableHttp { status } => Self::category_from_status(status),
            Error::AuthError { .. } => ErrorCategory::Auth,
            Error::QuotaExceeded { .. } => ErrorCategory::Quota,
            Error::Translation { .. } => ErrorCategory::Client,
            Error::Config { .. } => ErrorCategory::Config,
            Error::Cache { .. } => ErrorCategory::Cache,
            Error::CircuitOpen(_) => ErrorCategory::Server,
            Error::Timeout => ErrorCategory::Network,
            Error::ConnectionFailed => ErrorCategory::Network,
        }
    }

    /// Determine if this error should trigger a retry
    pub fn is_retryable(&self) -> (r: bool)
        ensures
            r == category_is_retryable(error_category(*self)),
    {
        match self.category() {
            ErrorCategory::RateLimit | ErrorCategory::Server | ErrorCategory::Network => true,
            _ => false,
        }
    }

    /// Classify HTTP status code into error category
    fn category_from_status(status: &HttpStatus) -> (r: ErrorCategory)
        ensures
            r == status_category(status@),
    {
        let code = status.as_u16();
        if code == 401 || code == 403 {
            ErrorCategory::Auth
        } else if code == 429 {
            ErrorCategory::RateLimit
        } else if code == 402 || code == 451 {
            ErrorCategory::Quota
        } else if 400 <= code && code <= 499 {
            ErrorCategory::Client
        } else if 500 <= code && code <= 599 {
            ErrorCategory::Server
        } else {
            ErrorCategory::Unknown
        }
    }

    /// Create appropriate error from HTTP status code
    pub fn from_status(status: HttpStatus) -> (r: Self)
        ensures
            is_status_error(status, None, r),
    {
        Self::from_status_with_retry_after(status, None)
    }

    /// Create error from HTTP status with optional Retry-After value
    pub fn from_status_with_retry_after(status: HttpStatus, retry_after_secs: Option<u64>) -> (r: Self)
        ensures
            is_status_error(status, retry_after_secs, r),
    {
        let code = status.as_u16();
        if code == 401 || code == 403 {
            Error::AuthError { status }
        } else if code == 429 {
            Error::RateLimited { retry_after_secs }
        } else if code == 402 || code == 451 {
            Error::QuotaExceeded { status }
        } else if 500 <= code && code <= 599 {
            Error::RetryableHttp { status }
        } else {
            let mut message = String::from_str("HTTP ");
            let digits = decimal_string(code as u64);
            message.append(digits.as_str());
            Error::Translation { message }
        }
    }

    /// Extract retry_after_secs from RateLimited error
    pub fn retry_after_secs(&self) -> (r: Option<u64>)
        ensures
            r == error_retry_after(*self),
    {
        match self {
            Error::RateLimited { retry_after_secs } => *retry_after_secs,
            _ => None,
        }
    }
}

/// The `, retry after {s}s` part of a rate-limit message.
pub open spec fn retry_suffix(retry: Option<u64>) -> Seq<char> {
    match retry {
        Some(secs) => ", retry after "@ + decimal(secs as nat) + "s"@,
        None => Seq::empty(),
    }
}

/// The message of an error. `detail` is the text of what the error carries
/// from outside: the inner error's text for `Io` and `Json`, the status line
/// for `RetryableHttp`, `AuthError` and `QuotaExceeded`; other variants do
/// not read it.
pub open spec fn message_text(e: Error, detail: Seq<char>) -> Seq<char> {
    match e {
        Error::Io(_) => "IO error: "@ + detail,
        Error::Json(_) => "JSON parse error: "@ + detail,
        Error::Http(f) => "HTTP error: "@ + f.message@,
        Error::RateLimited { retry_after_secs } => "Rate limited (HTTP 429)"@ + retry_suffix(
            retry_after_secs,
        ) + ". "@ + advice_text(ErrorCategory::RateLimit),
        Error::RetryableHttp { .. } => "HTTP "@ + detail + " (retryable). "@ + advice_text(
            ErrorCategory::Server,
        ),
        Error::AuthError { .. } => "Authentication failed (HTTP "@ + detail + "). "@ + advice_text(
            ErrorCategory::Auth,
        ),
        Error::QuotaExceeded { .. } => "Quota exceeded (HTTP "@ + detail + "). "@ + advice_text(
            ErrorCategory::Quota,
        ),
        Error::Translation { message } => "Translation failed: "@ + message@,
        Error::Config { message } => "Config error: "@ + message@,
        Error::Cache { message } => "Cache error: "@ + message@,
        Error::CircuitOpen(secs) =>
            "Circuit breaker open. Translation service temporarily unavailable. Retry in "@
                + decimal(secs as nat) + " seconds"@,
        Error::Timeout => "Connection timeout. "@ + advice_text(ErrorCategory::Network),
        Error::ConnectionFailed => "Connection failed. "@ + advice_text(ErrorCategory::Network),
    }
}

/// The status an error carries in its message, if any.
pub open spec fn message_status(e: Error) -> Option<HttpStatus> {
    match e {
        Error::RetryableHttp { status } => Some(status),
        Error::AuthError { status } => Some(status),
        Error::QuotaExceeded { status } => Some(status),
        _ => None,
    }
}

/// `Display` of `std::io::Error`; nothing is stated of the text (for an OS
/// error it comes from the operating system).
#[verifier::external_body]
fn io_error_text(e: &std::io::Error) -> String {
    format!("{}", e)
}

/// `Display` of `serde_json::Error`; nothing is stated of the text.
#[verifier::external_body]
fn json_error_text(e: &JsonError) -> String {
    format!("{}", e)
}

impl Error {
    /// The message of this error, given the text of what it carries from
    /// outside (see `message_text`).
    pub fn message_with_detail(&self, detail: &str) -> (r: String)
        ensures
            r@ == message_text(*self, detail@),
    {
        match self {
            Error::Io(_) => {
                let mut m = String::from_str("IO error: ");
                m.append(detail);
                m
            },
            Error::Json(_) => {
                let mut m = String::from_str("JSON parse error: ");
                m.append(detail);
                m
            },
            Error::Http(f) => {
                let mut m = String::from_str("HTTP error: ");
                m.append(f.message.as_str());
                m
            },
            Error::RateLimited { retry_after_secs } => {
                let mut m = String::from_str("Rate limited (HTTP 429)");
                match retry_after_secs {
                    Some(secs) => {
                        m.append(", retry after ");
                        let digits = decimal_string(*secs);
                        m.append(digits.as_str());
                        m.append("s");
                    },
                    None => {},
                }
                m.append(". ");
                m.append(ErrorCategory::RateLimit.advice());
                m
            },
            Error::RetryableHttp { .. } => {
                let mut m = String::from_str("HTTP ");
                m.append(detail);
                m.append(" (retryable). ");
                m.append(ErrorCategory::Server.advice());
                m
            },
            Error::AuthError { .. } => {
                let mut m = String::from_str("Authentication failed (HTTP ");
                m.append(detail);
                m.append("). ");
                m.append(ErrorCategory::Auth.advice());
                m
            },
            Error::QuotaExceeded { .. } => {
                let mut m = String::from_str("Quota exceeded (HTTP ");
                m.append(detail);
                m.append("). ");
                m.append(ErrorCategory::Quota.advice());
                m
            },
            Error::Translation { message } => {
                let mut m = String::from_str("Translation failed: ");
                m.append(message.as_str());
                m
            },
            Error::Config { message } => {
                let mut m = String::from_str("Config error: ");
                m.append(message.as_str());
                m
            },
            Error::Cache { message } => {
                let mut m = String::from_str("Cache error: ");
                m.append(message.as_str());
                m
            },
            Error::CircuitOpen(secs) => {
                let mut m = String::from_str(
                    "Circuit breaker open. Translation service temporarily unavailable. Retry in ",
                );
                let digits = decimal_string(*secs);
                m.append(digits.as_str());
                m.append(" seconds");
                m
            },
            Error::Timeout => {
                let mut m = String::from_str("Connection timeout. ");
                m.append(ErrorCategory::Network.advice());
                m
            },
            Error::ConnectionFailed => {
                let mut m = String::from_str("Connection failed. ");
                m.append(ErrorCategory::Network.advice());
                m
            },
        }
    }

    /// The error's message (what `Display` writes for it).
    pub fn to_string(&self) -> (r: String)
        ensures
            match message_status(*self) {
                Some(status) => r@ == message_text(*self, status_display(status@)),
                None => match self {
                    Error::Io(_) | Error::Json(_) => exists|d: Seq<char>|
                        r@ == #[trigger] message_text(*self, d),
                    _ => r@ == message_text(*self, Seq::empty()),
                },
            },
            r@.len() > 0,
    {
        let detail = match self {
            Error::Io(e) => io_error_text(e),
            Error::Json(e) => json_error_text(e),
            Error::RetryableHttp { status } | Error::AuthError { status } | Error::QuotaExceeded {
                status,
            } => status_text(status.as_u16()),
            _ => String::new(),
        };
        let r = self.message_with_detail(detail.as_str());
        proof {
            lemma_message_nonempty(*self, detail@);
        }
        r
    }
}

/// Every message is non-empty, whatever the detail text.
pub proof fn lemma_message_nonempty(e: Error, detail: Seq<char>)
    ensures
        message_text(e, detail).len() > 0,
{
    reveal_strlit("IO error: ");
    reveal_strlit("JSON parse error: ");
    reveal_strlit("HTTP error: ");
    reveal_strlit("Rate limited (HTTP 429)");
    reveal_strlit("HTTP ");
    reveal_strlit("Authentication failed (HTTP ");
    reveal_strlit("Quota exceeded (HTTP ");
    reveal_strlit("Translation failed: ");
    reveal_strlit("Config error: ");
    reveal_strlit("Cache error: ");
    reveal_strlit("Circuit breaker open. Translation service temporarily unavailable. Retry in ");
    reveal_strlit("Connection timeout. ");
    reveal_strlit("Connection failed. ");
}

impl From<std::io::Error> for Error {
    fn from(e: std::io::Error) -> (r: Self) {
        Error::Io(e)
    }
}

impl vstd::std_specs::convert::FromSpecImpl<std::io::Error> for Error {
    open spec fn obeys_from_spec() -> bool {
        true
    }

    open spec fn from_spec(e: std::io::Error) -> Self {
        Error::Io(e)
    }
}

impl From<JsonError> for Error {
    fn from(e: JsonError) -> (r: Self) {
        Error::Json(e)
    }
}

impl vstd::std_specs::convert::FromSpecImpl<JsonError> for Error {
    open spec fn obeys_from_spec() -> bool {
        true
    }

    open spec fn from_spec(e: JsonError) -> Self {
        Error::Json(e)
    }
}

/// The category of an HTTP status is never Network, Config or Cache: it is
/// one of Auth, RateLimit, Quota, Client, Server and Unknown.
pub proof fn lemma_status_category_range(code: u16)
    ensures
        status_category(code) != ErrorCategory::Network,
        status_category(code) != ErrorCategory::Config,
        status_category(code) != ErrorCategory::Cache,
        status_category(code) == ErrorCategory::Auth || status_category(code)
            == ErrorCategory::RateLimit || status_category(code) == ErrorCategory::Quota
            || status_category(code) == ErrorCategory::Client || status_category(code)
            == ErrorCategory::Server || status_category(code) == ErrorCategory::Unknown,
{
}

/// An error made from a 4xx or 5xx status falls in the category of that status.
pub proof fn lemma_status_error_category(status: HttpStatus, retry: Option<u64>, e: Error)
    requires
        is_status_error(status, retry, e),
        400 <= status@ <= 599,
    ensures
        error_category(e) == status_category(status@),
{
}

/// An error made from a status carries the Retry-After value exactly when the
/// status is 429 (Too Many Requests).
pub proof fn lemma_status_error_retry_after(status: HttpStatus, retry: Option<u64>, e: Error)
    requires
        is_status_error(status, retry, e),
    ensures
        error_retry_after(e) == (if status@ == 429 { retry } else { None::<u64> }),
{
}

/// An error made from a status is retryable exactly when the status is 429 or
/// a server error (5xx).
pub proof fn lemma_status_error_retryable(status: HttpStatus, retry: Option<u64>, e: Error)
    requires
        is_status_error(status, retry, e),
    ensures
        category_is_retryable(error_category(e)) <==> (status@ == 429 || 500 <= status@ <= 599),
{
}

/// `m` ends with `suffix`.
pub open spec fn ends_with(m: Seq<char>, suffix: Seq<char>) -> bool {
    m.len() >= suffix.len() && m.subrange(m.len() - suffix.len(), m.len() as int) == suffix
}

/// The message of a rate-limit, authentication, quota, timeout or
/// connection error, and of a retryable HTTP error with a 5xx status, ends
/// with the advice for the error's category.
pub proof fn lemma_message_ends_with_advice(e: Error, detail: Seq<char>)
    requires
        e is RateLimited || e is AuthError || e is QuotaExceeded || e is Timeout
            || e is ConnectionFailed || (e matches Error::RetryableHttp { status } && 500
            <= status@ <= 599),
    ensures
        ends_with(message_text(e, detail), advice_text(error_category(e))),
{
    let m = message_text(e, detail);
    let a = advice_text(error_category(e));
    let head = m.subrange(0, m.len() - a.len());
    assert(m =~= head + a) by {
        match e {
            Error::RateLimited { retry_after_secs } => {
                assert(m =~= ("Rate limited (HTTP 429)"@ + retry_suffix(retry_after_secs) + ". "@)
                    + a);
            },
            Error::RetryableHttp { .. } => {
                assert(m =~= ("HTTP "@ + detail + " (retryable). "@) + a);
            },
            Error::AuthError { .. } => {
                assert(m =~= ("Authentication failed (HTTP "@ + detail + "). "@) + a);
            },
            Error::QuotaExceeded { .. } => {
                assert(m =~= ("Quota exceeded (HTTP "@ + detail + "). "@) + a);
            },
            Error::Timeout => {
                assert(m =~= "Connection timeout. "@ + a);
            },
            _ => {
                assert(m =~= "Connection failed. "@ + a);
            },
        }
    }
    assert(m.subrange(m.len() - a.len(), m.len() as int) =~= a);
}

/// Each kind of error falls in a fixed category: I/O and cache errors in
/// Cache, configuration errors in Config, JSON and translation errors in
/// Client, rate limits in RateLimit, authentication failures in Auth, quota
/// errors in Quota, an open circuit breaker in Server, timeouts and failed
/// connections in Network.
pub proof fn lemma_error_kind_categories(
    io: std::io::Error,
    json: JsonError,
    message: String,
    secs: u64,
    retry: Option<u64>,
    status: HttpStatus,
)
    ensures
        error_category(Error::Io(io)) == ErrorCategory::Cache,
        error_category(Error::Cache { message }) == ErrorCategory::Cache,
        error_category(Error::Config { message }) == ErrorCategory::Config,
        error_category(Error::Json(json)) == ErrorCategory::Client,
        error_category(Error::Translation { message }) == ErrorCategory::Client,
        error_category(Error::RateLimited { retry_after_secs: retry }) == ErrorCategory::RateLimit,
        error_category(Error::AuthError { status }) == ErrorCategory::Auth,
        error_category(Error::QuotaExceeded { status }) == ErrorCategory::Quota,
        error_category(Error::CircuitOpen(secs)) == ErrorCategory::Server,
        error_category(Error::Timeout) == ErrorCategory::Network,
        error_category(Error::ConnectionFailed) == ErrorCategory::Network,
{
}

/// How a status code is classified: 401 and 403 as Auth, 429 as RateLimit,
/// 402 and 451 as Quota, the other 4xx codes as Client, every 5xx code as
/// Server, and every code below 400 or above 599 as Unknown.
pub proof fn lemma_status_code_categories(code: u16)
    ensures
        (code == 401 || code == 403) ==> status_category(code) == ErrorCategory::Auth,
        code == 429 ==> status_category(code) == ErrorCategory::RateLimit,
        (code == 402 || code == 451) ==> status_category(code) == ErrorCategory::Quota,
        (400 <= code <= 499 && code != 401 && code != 402 && code != 403 && code != 429 && code
            != 451) ==> status_category(code) == ErrorCategory::Client,
        500 <= code <= 599 ==> status_category(code) == ErrorCategory::Server,
        (code < 400 || code > 599) ==> status_category(code) == ErrorCategory::Unknown,
{
}

/// A failed HTTP exchange is a Network error when it timed out or could not
/// connect; otherwise it takes the category of its status, and is Unknown
/// without one.
pub proof fn lemma_http_failure_categories(f: HttpFailure)
    ensures
        (f.timeout || f.connect) ==> error_category(Error::Http(f)) == ErrorCategory::Network,
        (!f.timeout && !f.connect && f.status is None) ==> error_category(Error::Http(f))
            == ErrorCategory::Unknown,
        (!f.timeout && !f.connect && f.status is Some) ==> error_category(Error::Http(f))
            == status_category(f.status.unwrap()@),
{
}

/// Only rate limits, server errors and network errors are retried: no
/// other category is retryable.
pub proof fn lemma_retryable_categories(c: ErrorCategory)
    ensures
        category_is_retryable(ErrorCategory::RateLimit),
        category_is_retryable(ErrorCategory::Server),
        category_is_retryable(ErrorCategory::Network),
        !category_is_retryable(ErrorCategory::Auth),
        !category_is_retryable(ErrorCategory::Quota),
        !category_is_retryable(ErrorCategory::Client),
        !category_is_retryable(ErrorCategory::Config),
        !category_is_retryable(ErrorCategory::Cache),
        !category_is_retryable(ErrorCategory::Unknown),
        category_is_retryable(c) ==> (c == ErrorCategory::RateLimit || c == ErrorCategory::Server
            || c == ErrorCategory::Network),
{
}

/// Which errors are retried: rate limits, an open circuit breaker, timeouts,
/// failed connections, timed-out or unconnected HTTP exchanges and
/// retryable 5xx responses are; I/O, JSON, configuration, cache,
/// translation, authentication and quota errors, and HTTP failures with
/// neither a flag nor a status, are not.
pub proof fn lemma_retryable_errors(
    io: std::io::Error,
    json: JsonError,
    message: String,
    secs: u64,
    retry: Option<u64>,
    status: HttpStatus,
    f: HttpFailure,
)
    ensures
        category_is_retryable(error_category(Error::RateLimited { retry_after_secs: retry })),
        category_is_retryable(error_category(Error::CircuitOpen(secs))),
        category_is_retryable(error_category(Error::Timeout)),
        category_is_retryable(error_category(Error::ConnectionFailed)),
        (f.timeout || f.connect) ==> category_is_retryable(error_category(Error::Http(f))),
        500 <= status@ <= 599 ==> category_is_retryable(
            error_category(Error::RetryableHttp { status }),
        ),
        !category_is_retryable(error_category(Error::Io(io))),
        !category_is_retryable(error_category(Error::Json(json))),
        !category_is_retryable(error_category(Error::Config { message })),
        !category_is_retryable(error_category(Error::Cache { message })),
        !category_is_retryable(error_category(Error::Translation { message })),
        !category_is_retryable(error_category(Error::AuthError { status })),
        !category_is_retryable(error_category(Error::QuotaExceeded { status })),
        (!f.timeout && !f.connect && f.status is None) ==> !category_is_retryable(
            error_category(Error::Http(f)),
        ),
{
}

/// The error built from a status (with any Retry-After value): an
/// authentication error for 401 and 403, a rate limit carrying the
/// Retry-After value for 429, a quota error for 402 and 451, a retryable HTTP
/// error for every 5xx code, each carrying that same status, and otherwise a
/// translation error whose message is `HTTP ` and the code.
pub proof fn lemma_status_error_shape(status: HttpStatus, retry: Option<u64>, e: Error)
    requires
        is_status_error(status, retry, e),
    ensures
        (status@ == 401 || status@ == 403) ==> e == (Error::AuthError { status }),
        status@ == 429 ==> e == (Error::RateLimited { retry_after_secs: retry }),
        (status@ == 402 || status@ == 451) ==> e == (Error::QuotaExceeded { status }),
        500 <= status@ <= 599 ==> e == (Error::RetryableHttp { status }),
        (status@ < 500 && status@ != 401 && status@ != 402 && status@ != 403 && status@ != 429
            && status@ != 451) ==> (e matches Error::Translation { message } && message@ == "HTTP "@
            + decimal(status@ as nat)),
        status@ > 599 ==> (e matches Error::Translation { message } && message@ == "HTTP "@
            + decimal(status@ as nat)),
{
}

/// Only a rate limit carries a Retry-After delay: the delay of an error is
/// `Some(s)` exactly when the error is `RateLimited` with `Some(s)`, and
/// every other kind of error has none.
pub proof fn lemma_retry_after_only_rate_limited(
    e: Error,
    secs: u64,
    status: HttpStatus,
    message: String,
)
    ensures
        (error_retry_after(e) is Some) ==> (e == (Error::RateLimited {
            retry_after_secs: error_retry_after(e),
        })),
        !(e is RateLimited) ==> (error_retry_after(e) is None),
        (e is RateLimited) ==> (error_retry_after(e) == e->retry_after_secs),
        (error_retry_after(Error::CircuitOpen(secs)) is None),
        (error_retry_after(Error::Timeout) is None),
        (error_retry_after(Error::ConnectionFailed) is None),
        (error_retry_after(Error::RetryableHttp { status }) is None),
        (error_retry_after(Error::AuthError { status }) is None),
        (error_retry_after(Error::QuotaExceeded { status }) is None),
        (error_retry_after(Error::Translation { message }) is None),
{
}

} // verus!
