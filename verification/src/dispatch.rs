//! The request dispatcher: the decision core of a translate call as a state
//! machine, and the language-listing flow. The surrounding I/O performs the
//! actions the machine emits (cache lookup, provider call, best-effort cache
//! population) and feeds the outcomes back in as events; every decision in
//! between is made here.
//!
//! Per translate call the machine walks
//! `Fingerprinted -> (hit -> Done) | (miss -> AwaitingProvider -> Done)`:
//! a cache hit answers without the provider, a miss asks the provider once,
//! and a successful reply is cached best-effort under the same fingerprint
//! before it is returned. A provider failure is reported once, without
//! retries; a cache failure never surfaces.

use crate::catalog::{normalize_catalog, spec_normalize};
use crate::fingerprint::spec_fingerprint;
use crate::model::{Language, RawLanguageEntry, RawTranslateResponse, RawTranslateResponseView,
    TranslationRequest};
use crate::provider::{process_provider_response, spec_surfaced_text, ProviderError};
use vstd::prelude::*;

verus! {

/// The transport class under which a failure is surfaced to the caller.
#[derive(Debug, Clone, Copy, PartialEq, Eq, Structural)]
pub enum ErrorClass {
    /// Gateway-timeout class: the provider connection timed out.
    GatewayTimeout,
    /// Client class: the provider connection failed for another reason.
    Client,
    /// Internal-server class: the provider is unavailable, or a transport
    /// fault other than a connection failure occurred.
    Internal,
}

/// The transport class of each provider error kind.
pub open spec fn spec_classify(e: ProviderError) -> ErrorClass {
    match e {
        ProviderError::Unavailable => ErrorClass::Internal,
        ProviderError::ConnectTimeout => ErrorClass::GatewayTimeout,
        ProviderError::ConnectFailure => ErrorClass::Client,
        ProviderError::Transport => ErrorClass::Internal,
    }
}

/// Maps a provider failure to the transport class under which it is
/// surfaced: an unavailable provider and plain transport faults as internal
/// server failures, a connection timeout as a gateway timeout, and any other
/// connection failure as a client-class failure.
pub fn classify_provider_error(e: ProviderError) -> (c: ErrorClass)
    ensures
        c == spec_classify(e),
{
    match e {
        ProviderError::Unavailable => ErrorClass::Internal,
        ProviderError::ConnectTimeout => ErrorClass::GatewayTimeout,
        ProviderError::ConnectFailure => ErrorClass::Client,
        ProviderError::Transport => ErrorClass::Internal,
    }
}

/// Where a translate call stands.
#[derive(Debug, Clone, Copy, PartialEq, Eq, Structural)]
pub enum TranslateState {
    /// The fingerprint is computed and the cache is being consulted.
    Fingerprinted { fingerprint: u64 },
    /// The cache yielded nothing and the provider has been asked.
    /// `cache_usable` records whether a cache connection is at hand for
    /// best-effort population of the result.
    AwaitingProvider { fingerprint: u64, cache_usable: bool },
    /// The call is finished; no further event is taken.
    Done,
}

/// What the surrounding I/O reports back into the state machine.
#[derive(Debug)]
pub enum TranslateEvent {
    /// The cache lookup finished. `usable` says whether a cache connection
    /// was available at all; `cached` carries the stored text, if any. An
    /// unconfigured or unreachable cache, a lookup error, and a missing key
    /// all report `None`, so a cache outage degrades to a miss.
    CacheChecked { usable: bool, cached: Option<String> },
    /// The provider call finished, successfully or not.
    ProviderReplied { result: Result<RawTranslateResponse, ProviderError> },
}

/// The mathematical content of a `TranslateEvent`.
pub enum TranslateEventView {
    CacheChecked { usable: bool, cached: Option<Seq<char>> },
    ProviderReplied { result: Result<RawTranslateResponseView, ProviderError> },
}

impl View for TranslateEvent {
    type V = TranslateEventView;

    open spec fn view(&self) -> TranslateEventView {
        match self {
            TranslateEvent::CacheChecked { usable, cached } => TranslateEventView::CacheChecked {
                usable: *usable,
                cached: cached.deep_view(),
            },
            TranslateEvent::ProviderReplied { result } => TranslateEventView::ProviderReplied {
                result: match result {
                    Ok(resp) => Ok(resp@),
                    Err(e) => Err(*e),
                },
            },
        }
    }
}

/// What the surrounding I/O must do after a transition.
#[derive(Debug, Clone, PartialEq, Eq)]
pub enum TranslateAction {
    /// No cached text exists: ask the provider to translate.
    CallProvider,
    /// Store `text` in the cache under `fingerprint` best-effort — a store
    /// failure is logged and swallowed — then respond with `text`.
    StoreAndRespond { fingerprint: u64, text: String },
    /// Respond with `text` without touching the cache.
    Respond { text: String },
    /// Surface a server-side failure of the given class.
    Fail { class: ErrorClass },
}

/// The mathematical content of a `TranslateAction`.
pub enum TranslateActionView {
    CallProvider,
    StoreAndRespond { fingerprint: u64, text: Seq<char> },
    Respond { text: Seq<char> },
    Fail { class: ErrorClass },
}

impl View for TranslateAction {
    type V = TranslateActionView;

    open spec fn view(&self) -> TranslateActionView {
        match self {
            TranslateAction::CallProvider => TranslateActionView::CallProvider,
            TranslateAction::StoreAndRespond { fingerprint, text } =>
                TranslateActionView::StoreAndRespond { fingerprint: *fingerprint, text: text@ },
            TranslateAction::Respond { text } => TranslateActionView::Respond { text: text@ },
            TranslateAction::Fail { class } => TranslateActionView::Fail { class: *class },
        }
    }
}

/// Whether an event can arrive in a state: the cache answers while the
/// fingerprint is fresh, the provider answers only after a miss, and nothing
/// arrives once the call is done.
pub open spec fn spec_step_enabled(state: TranslateState, event: TranslateEventView) -> bool {
    match (state, event) {
        (TranslateState::Fingerprinted { .. }, TranslateEventView::CacheChecked { .. }) => true,
        (
            TranslateState::AwaitingProvider { .. },
            TranslateEventView::ProviderReplied { .. },
        ) => true,
        _ => false,
    }
}

/// One transition of the translate state machine: the next state and the
/// action the surrounding I/O must perform.
pub open spec fn spec_translate_step(state: TranslateState, event: TranslateEventView) -> (
    TranslateState,
    TranslateActionView,
)
    recommends
        spec_step_enabled(state, event),
{
    match (state, event) {
        (
            TranslateState::Fingerprinted { fingerprint },
            TranslateEventView::CacheChecked { usable, cached },
        ) => match cached {
            Some(text) => (TranslateState::Done, TranslateActionView::Respond { text }),
            None => (
                TranslateState::AwaitingProvider { fingerprint, cache_usable: usable },
                TranslateActionView::CallProvider,
            ),
        },
        (
            TranslateState::AwaitingProvider { fingerprint, cache_usable },
            TranslateEventView::ProviderReplied { result },
        ) => match result {
            Ok(resp) => if cache_usable {
                (
                    TranslateState::Done,
                    TranslateActionView::StoreAndRespond {
                        fingerprint,
                        text: spec_surfaced_text(resp),
                    },
                )
            } else {
                (
                    TranslateState::Done,
                    TranslateActionView::Respond { text: spec_surfaced_text(resp) },
                )
            },
            Err(e) => (
                TranslateState::Done,
                TranslateActionView::Fail { class: spec_classify(e) },
            ),
        },
        _ => (TranslateState::Done, TranslateActionView::Fail { class: ErrorClass::Internal }),
    }
}

/// Begins a translate call: derives the request's fingerprint and hands back
/// the state in which the cache is to be consulted under that fingerprint.
pub fn start_translate(req: &TranslationRequest) -> (s: TranslateState)
    ensures
        s == (TranslateState::Fingerprinted {
            fingerprint: spec_fingerprint(
                req.source_language_code@,
                req.target_language_code@,
                req.text@,
            ),
        }),
{
    TranslateState::Fingerprinted { fingerprint: req.generate_hash() }
}

/// Performs one transition of the translate state machine. On a cache hit
/// the cached text is returned as is and the provider is never contacted; on
/// a miss the provider is asked; a successful provider reply is surfaced
/// with HTML entities decoded and, where a cache connection is usable,
/// stored best-effort under the fingerprint that was looked up; a provider
/// failure is surfaced under its transport class.
pub fn translate_step(state: TranslateState, event: TranslateEvent) -> (r: (
    TranslateState,
    TranslateAction,
))
    requires
        spec_step_enabled(state, event@),
    ensures
        r.0 == spec_translate_step(state, event@).0,
        r.1@ == spec_translate_step(state, event@).1,
{
    match (state, event) {
        (
            TranslateState::Fingerprinted { fingerprint },
            TranslateEvent::CacheChecked { usable, cached },
        ) => match cached {
            Some(text) => (TranslateState::Done, TranslateAction::Respond { text }),
            None => (
                TranslateState::AwaitingProvider { fingerprint, cache_usable: usable },
                TranslateAction::CallProvider,
            ),
        },
        (
            TranslateState::AwaitingProvider { fingerprint, cache_usable },
            TranslateEvent::ProviderReplied { result },
        ) => match result {
            Ok(resp) => {
                let text = process_provider_response(&resp);
                if cache_usable {
                    (TranslateState::Done, TranslateAction::StoreAndRespond { fingerprint, text })
                } else {
                    (TranslateState::Done, TranslateAction::Respond { text })
                }
            },
            Err(e) => (
                TranslateState::Done,
                TranslateAction::Fail { class: classify_provider_error(e) },
            ),
        },
        _ => unreached(),
    }
}

/// Handles the language-listing call: a successful provider catalog is
/// normalized and returned, and a provider failure is surfaced under its
/// transport class. An empty or wholly unusable catalog is a success with an
/// empty list, never a failure.
pub fn languages_outcome(result: Result<Vec<RawLanguageEntry>, ProviderError>) -> (r: Result<
    Vec<Language>,
    ErrorClass,
>)
    ensures
        result matches Ok(entries) ==> r matches Ok(langs) && langs.deep_view() == spec_normalize(
            entries@,
        ),
        result matches Err(e) ==> r == Err::<Vec<Language>, ErrorClass>(spec_classify(e)),
{
    match result {
        Ok(entries) => Ok(normalize_catalog(&entries)),
        Err(e) => Err(classify_provider_error(e)),
    }
}

/// Cache-aside, hit half: when the cache holds text under the fingerprint,
/// the step answers with exactly that text and finishes the call — the
/// action is never `CallProvider`, so the provider is not contacted.
pub proof fn lemma_cache_hit_skips_provider(fingerprint: u64, usable: bool, text: Seq<char>)
    ensures
        ({
            let (s, a) = spec_translate_step(
                TranslateState::Fingerprinted { fingerprint },
                TranslateEventView::CacheChecked { usable, cached: Some(text) },
            );
            s is Done && a == (TranslateActionView::Respond { text })
        }),
{
}

/// Cache-aside, miss half: a miss asks the provider exactly once — the step
/// emits `CallProvider` and waits, and the provider's reply finishes the
/// call, so no transition emits `CallProvider` twice — and a successful
/// reply is stored under the very fingerprint that was looked up, carrying
/// exactly the text that is returned to the caller.
pub proof fn lemma_cache_miss_calls_provider_once(
    fingerprint: u64,
    usable: bool,
    resp: RawTranslateResponseView,
)
    ensures
        ({
            let (s1, a1) = spec_translate_step(
                TranslateState::Fingerprinted { fingerprint },
                TranslateEventView::CacheChecked { usable, cached: None },
            );
            let (s2, a2) = spec_translate_step(
                s1,
                TranslateEventView::ProviderReplied { result: Ok(resp) },
            );
            &&& a1 is CallProvider
            &&& s1 == (TranslateState::AwaitingProvider { fingerprint, cache_usable: usable })
            &&& s2 is Done
            &&& usable ==> a2 == (TranslateActionView::StoreAndRespond {
                fingerprint,
                text: spec_surfaced_text(resp),
            })
            &&& !usable ==> a2 == (TranslateActionView::Respond {
                text: spec_surfaced_text(resp),
            })
        }),
{
}

/// A finished call takes no further event: no transition is enabled from
/// `Done`, so no action — in particular no second provider call — can follow
/// the reply that finished the call.
pub proof fn lemma_done_is_final(event: TranslateEventView)
    ensures
        !spec_step_enabled(TranslateState::Done, event),
{
}

/// Fail-open: with the cache backend unreachable — the lookup reports no
/// usable connection and no value — a translate call surfaces exactly the
/// provider's own result: its text on success, its error class on failure.
/// The call never fails on account of the cache alone.
pub proof fn lemma_fail_open(
    fingerprint: u64,
    result: Result<RawTranslateResponseView, ProviderError>,
)
    ensures
        ({
            let (s1, a1) = spec_translate_step(
                TranslateState::Fingerprinted { fingerprint },
                TranslateEventView::CacheChecked { usable: false, cached: None },
            );
            let (s2, a2) = spec_translate_step(
                s1,
                TranslateEventView::ProviderReplied { result },
            );
            &&& a1 is CallProvider
            &&& s2 is Done
            &&& result matches Ok(resp) ==> a2 == (TranslateActionView::Respond {
                text: spec_surfaced_text(resp),
            })
            &&& result matches Err(e) ==> a2 == (TranslateActionView::Fail {
                class: spec_classify(e),
            })
        }),
{
}

} // verus!
