//! Data model of the translation pipeline: requests, normalized languages,
//! and the raw shapes in which the upstream provider reports its language
//! catalog and its translations.

use vstd::prelude::*;

verus! {

/// One provider-supported language, usable both as a translation source and
/// as a translation target. Values are produced only by catalog
/// normalization and are read-only afterwards.
#[derive(Debug, Clone, PartialEq, Eq)]
pub struct Language {
    pub code: String,
    pub display_name: String,
}

/// The mathematical content of a `Language`: both fields as character
/// sequences.
pub struct LanguageView {
    pub code: Seq<char>,
    pub display_name: Seq<char>,
}

impl View for Language {
    type V = LanguageView;

    open spec fn view(&self) -> LanguageView {
        LanguageView { code: self.code@, display_name: self.display_name@ }
    }
}

impl DeepView for Language {
    type V = LanguageView;

    open spec fn deep_view(&self) -> LanguageView {
        self@
    }
}

/// A translation request. Its three fields fully determine the semantic
/// meaning of the request; the cache fingerprint is derived from them alone,
/// in field order.
#[derive(Debug, Clone, PartialEq, Eq)]
pub struct TranslationRequest {
    pub source_language_code: String,
    pub target_language_code: String,
    pub text: String,
}

/// One entry of the provider's raw language catalog. The provider leaves
/// every field optional; normalization keeps only entries with a non-empty
/// code, a non-empty display name, and both support flags true.
#[derive(Debug, Clone)]
pub struct RawLanguageEntry {
    pub language_code: Option<String>,
    pub display_name: Option<String>,
    pub support_source: Option<bool>,
    pub support_target: Option<bool>,
}

/// One translation inside the provider's response to a translate call; the
/// provider may omit the text.
#[derive(Debug, Clone)]
pub struct RawTranslation {
    pub translated_text: Option<String>,
}

/// The mathematical content of a `RawTranslation`.
pub struct RawTranslationView {
    pub translated_text: Option<Seq<char>>,
}

impl View for RawTranslation {
    type V = RawTranslationView;

    open spec fn view(&self) -> RawTranslationView {
        RawTranslationView { translated_text: self.translated_text.deep_view() }
    }
}

impl DeepView for RawTranslation {
    type V = RawTranslationView;

    open spec fn deep_view(&self) -> RawTranslationView {
        self@
    }
}

/// The provider's response to a translate call: possibly a list of
/// translations, possibly nothing at all.
#[derive(Debug, Clone)]
pub struct RawTranslateResponse {
    pub translations: Option<Vec<RawTranslation>>,
}

/// The mathematical content of a `RawTranslateResponse`.
pub struct RawTranslateResponseView {
    pub translations: Option<Seq<RawTranslationView>>,
}

impl View for RawTranslateResponse {
    type V = RawTranslateResponseView;

    open spec fn view(&self) -> RawTranslateResponseView {
        RawTranslateResponseView { translations: self.translations.deep_view() }
    }
}

impl DeepView for RawTranslateResponse {
    type V = RawTranslateResponseView;

    open spec fn deep_view(&self) -> RawTranslateResponseView {
        self@
    }
}

} // verus!
