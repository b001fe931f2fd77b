//! Local offline translation with Opus-MT models.
//!
//! The default build has no model: `translate_local` then refuses every
//! request. Where a model is present, its source language and the handling of
//! its output are decided here.
use vstd::prelude::*;
use crate::error::Error;

verus! {

/// The language detected in a text.
#[derive(Debug, Clone, Copy, PartialEq, Eq)]
pub enum Language {
    Chinese,
    Japanese,
    Korean,
    English,
    Unknown,
}

/// The source languages of the local translation model (to English).
#[derive(Debug, Clone, Copy, PartialEq, Eq)]
pub enum ModelLanguage {
    ChineseMandarin,
    Japanese,
    Korean,
}

/// The model language for a detected language, if the model translates from it.
pub open spec fn spec_model_language(lang: Language) -> Option<ModelLanguage> {
    match lang {
        Language::Chinese => Some(ModelLanguage::ChineseMandarin),
        Language::Japanese => Some(ModelLanguage::Japanese),
        Language::Korean => Some(ModelLanguage::Korean),
        _ => None,
    }
}

/// Map a detected language to the model's source language.
pub fn model_source_language(lang: Language) -> (r: Option<ModelLanguage>)
    ensures
        r == spec_model_language(lang),
{
    match lang {
        Language::Chinese => Some(ModelLanguage::ChineseMandarin),
        Language::Japanese => Some(ModelLanguage::Japanese),
        Language::Korean => Some(ModelLanguage::Korean),
        _ => None,
    }
}

/// The translation of a single text, from the list of outputs the model gave
/// for it: the first output, or a translation error when there is none.
pub fn first_translation(outputs: Vec<String>) -> (r: Result<String, Error>)
    ensures
        outputs@.len() > 0 ==> r == Ok::<String, Error>(outputs@[0]),
        outputs@.len() == 0 ==> (r matches Err(Error::Translation { message })
            && message@ == "Empty translation result"@),
{
    let mut outputs = outputs;
    if outputs.len() > 0 {
        Ok(outputs.remove(0))
    } else {
        Err(Error::Translation { message: String::from_str("Empty translation result") })
    }
}

/// Translate text locally. Without a local model in the build this refuses
/// every request with a translation error that says how to enable it.
pub fn translate_local(_text: &str, _source_lang: Language) -> (r: Result<String, Error>)
    ensures
        r matches Err(Error::Translation { message }) && message@
            == "Local translation requires the 'local-translate' feature. Build with: cargo build --features local-translate"@,
{
    Err(
        Error::Translation {
            message: String::from_str(
                "Local translation requires the 'local-translate' feature. Build with: cargo build --features local-translate",
            ),
        },
    )
}

} // verus!
