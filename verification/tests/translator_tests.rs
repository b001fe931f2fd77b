use cjk_token_reducer::error::Error;
use cjk_token_reducer::local_translator::{
    first_translation, model_source_language, translate_local, Language, ModelLanguage,
};
use cjk_token_reducer::text::decimal_string;

#[test]
fn local_translation_needs_a_model() {
    match translate_local("你好", Language::Chinese) {
        Err(Error::Translation { message }) => assert_eq!(
            message,
            "Local translation requires the 'local-translate' feature. Build with: cargo build --features local-translate"
        ),
        other => panic!("unexpected {:?}", other),
    }
}

#[test]
fn model_languages() {
    assert_eq!(model_source_language(Language::Chinese), Some(ModelLanguage::ChineseMandarin));
    assert_eq!(model_source_language(Language::Japanese), Some(ModelLanguage::Japanese));
    assert_eq!(model_source_language(Language::Korean), Some(ModelLanguage::Korean));
    assert_eq!(model_source_language(Language::English), None);
    assert_eq!(model_source_language(Language::Unknown), None);
}

#[test]
fn first_output_is_the_translation() {
    let r = first_translation(vec!["hello".to_string(), "world".to_string()]);
    assert_eq!(r.unwrap(), "hello");
    match first_translation(Vec::new()) {
        Err(Error::Translation { message }) => assert_eq!(message, "Empty translation result"),
        other => panic!("unexpected {:?}", other),
    }
}

#[test]
fn decimal_rendering() {
    assert_eq!(decimal_string(0), "0");
    assert_eq!(decimal_string(7), "7");
    assert_eq!(decimal_string(10), "10");
    assert_eq!(decimal_string(404), "404");
    assert_eq!(decimal_string(u64::MAX), u64::MAX.to_string());
}
