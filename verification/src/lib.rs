//! Error classification, configuration defaults and the local-translation
//! entry points of the CJK token reducer, with their behaviour stated as
//! contracts and proved.

pub mod config;
pub mod error;
pub mod local_translator;
pub mod status;
pub mod text;

pub use error::{Error, ErrorCategory, HttpFailure, Result};
pub use status::HttpStatus;
pub use local_translator::{translate_local, Language};
pub use config::{CacheConfig, PreserveConfig, ResilienceConfig};
