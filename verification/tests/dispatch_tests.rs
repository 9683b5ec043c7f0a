use std::collections::HashMap;

use translator::dispatch::{
    classify_provider_error, languages_outcome, start_translate, translate_step, ErrorClass,
    TranslateAction, TranslateEvent, TranslateState,
};
use translator::model::{Language, RawLanguageEntry, RawTranslateResponse, RawTranslation,
    TranslationRequest};
use translator::provider::ProviderError;

fn request(source: &str, target: &str, text: &str) -> TranslationRequest {
    TranslationRequest {
        source_language_code: source.to_string(),
        target_language_code: target.to_string(),
        text: text.to_string(),
    }
}

fn provider_response(text: &str) -> RawTranslateResponse {
    RawTranslateResponse {
        translations: Some(vec![RawTranslation { translated_text: Some(text.to_string()) }]),
    }
}

/// Runs one whole translate call against `cache`, asking `provider` only
/// when the state machine says so, and counts the provider calls made.
fn run_translate(
    request: &TranslationRequest,
    cache: &mut HashMap<u64, String>,
    cache_usable: bool,
    provider: &dyn Fn() -> Result<RawTranslateResponse, ProviderError>,
    provider_calls: &mut usize,
) -> Result<String, ErrorClass> {
    let state = start_translate(request);
    let fingerprint = match state {
        TranslateState::Fingerprinted { fingerprint } => fingerprint,
        _ => panic!("translate must start at the cache lookup"),
    };
    let cached = if cache_usable { cache.get(&fingerprint).cloned() } else { None };
    let (state, action) =
        translate_step(state, TranslateEvent::CacheChecked { usable: cache_usable, cached });
    match action {
        TranslateAction::Respond { text } => return Ok(text),
        TranslateAction::CallProvider => {}
        other => panic!("unexpected action after cache lookup: {:?}", other),
    }
    *provider_calls += 1;
    let result = provider();
    let (_, action) = translate_step(state, TranslateEvent::ProviderReplied { result });
    match action {
        TranslateAction::StoreAndRespond { fingerprint, text } => {
            cache.insert(fingerprint, text.clone());
            Ok(text)
        }
        TranslateAction::Respond { text } => Ok(text),
        TranslateAction::Fail { class } => Err(class),
        TranslateAction::CallProvider => panic!("the provider may be called only once"),
    }
}

#[test]
fn miss_then_hit_calls_provider_once() {
    let req = request("en", "fr", "hello");
    let mut cache: HashMap<u64, String> = HashMap::new();
    let mut calls: usize = 0;
    let provider = || Ok(provider_response("bonjour"));

    let first = run_translate(&req, &mut cache, true, &provider, &mut calls);
    assert_eq!(first, Ok("bonjour".to_string()));
    assert_eq!(calls, 1);
    assert_eq!(cache.get(&req.generate_hash()), Some(&"bonjour".to_string()));

    let second = run_translate(&req, &mut cache, true, &provider, &mut calls);
    assert_eq!(second, Ok("bonjour".to_string()));
    assert_eq!(calls, 1, "a cache hit must not reach the provider");
}

#[test]
fn cache_hit_returns_cached_text_without_provider() {
    let req = request("en", "fr", "hello");
    let mut cache: HashMap<u64, String> = HashMap::new();
    cache.insert(req.generate_hash(), "salut".to_string());
    let mut calls: usize = 0;
    let provider =
        || -> Result<RawTranslateResponse, ProviderError> { panic!("must not be called") };

    let outcome = run_translate(&req, &mut cache, true, &provider, &mut calls);
    assert_eq!(outcome, Ok("salut".to_string()));
    assert_eq!(calls, 0);
}

#[test]
fn unreachable_cache_fails_open() {
    let req = request("en", "fr", "hello");
    let mut cache: HashMap<u64, String> = HashMap::new();
    let mut calls: usize = 0;
    let provider = || Ok(provider_response("bonjour"));

    let outcome = run_translate(&req, &mut cache, false, &provider, &mut calls);
    assert_eq!(outcome, Ok("bonjour".to_string()));
    assert_eq!(calls, 1);
    assert!(cache.is_empty(), "no population without a usable cache connection");
}

#[test]
fn provider_failure_is_surfaced_once() {
    let req = request("en", "fr", "hello");
    let mut cache: HashMap<u64, String> = HashMap::new();
    let mut calls: usize = 0;
    let provider = || Err(ProviderError::Transport);

    let outcome = run_translate(&req, &mut cache, true, &provider, &mut calls);
    assert_eq!(outcome, Err(ErrorClass::Internal));
    assert_eq!(calls, 1, "a provider failure is reported once, without retries");
    assert!(cache.is_empty());
}

#[test]
fn unavailable_provider_fails_translate_and_languages() {
    let req = request("en", "fr", "hello");
    let mut cache: HashMap<u64, String> = HashMap::new();
    let mut calls: usize = 0;
    let provider = || Err(ProviderError::Unavailable);

    let translated = run_translate(&req, &mut cache, true, &provider, &mut calls);
    assert_eq!(translated, Err(ErrorClass::Internal));

    let languages = languages_outcome(Err(ProviderError::Unavailable));
    assert_eq!(languages, Err(ErrorClass::Internal));
}

#[test]
fn provider_errors_map_to_their_classes() {
    assert_eq!(classify_provider_error(ProviderError::Unavailable), ErrorClass::Internal);
    assert_eq!(classify_provider_error(ProviderError::ConnectTimeout), ErrorClass::GatewayTimeout);
    assert_eq!(classify_provider_error(ProviderError::ConnectFailure), ErrorClass::Client);
    assert_eq!(classify_provider_error(ProviderError::Transport), ErrorClass::Internal);
}

#[test]
fn languages_outcome_normalizes_the_catalog() {
    let entries = vec![
        RawLanguageEntry {
            language_code: Some("en".to_string()),
            display_name: Some("English".to_string()),
            support_source: Some(true),
            support_target: Some(true),
        },
        RawLanguageEntry {
            language_code: Some("zz".to_string()),
            display_name: Some("Z".to_string()),
            support_source: Some(false),
            support_target: Some(true),
        },
    ];
    let outcome = languages_outcome(Ok(entries));
    assert_eq!(
        outcome,
        Ok(vec![Language { code: "en".to_string(), display_name: "English".to_string() }])
    );
}

#[test]
fn empty_provider_catalog_is_a_success() {
    let outcome = languages_outcome(Ok(vec![]));
    assert_eq!(outcome, Ok(vec![]));
}

#[test]
fn entity_decoding_happens_before_caching() {
    let req = request("en", "fr", "coffee");
    let mut cache: HashMap<u64, String> = HashMap::new();
    let mut calls: usize = 0;
    let provider = || Ok(provider_response("Caf&eacute;"));

    let outcome = run_translate(&req, &mut cache, true, &provider, &mut calls);
    assert_eq!(outcome, Ok("Café".to_string()));
    assert_eq!(cache.get(&req.generate_hash()), Some(&"Café".to_string()));
}
