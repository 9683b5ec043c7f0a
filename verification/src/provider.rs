//! Provider-side response handling: extracting the translated text from the
//! provider's response shape and decoding HTML entities before the text is
//! surfaced, plus the error taxonomy for a provider that could not answer.

use crate::model::{RawTranslateResponse, RawTranslateResponseView};
use vstd::prelude::*;

verus! {

/// Why a provider call yielded no translation. Data-level oddities (a
/// response with missing fields) are not errors: they surface as an empty
/// result instead.
#[derive(Debug, Clone, Copy, PartialEq, Eq, Structural)]
pub enum ProviderError {
    /// Credentials or session could not be established at start-up; every
    /// call fails immediately with this kind for the process lifetime.
    Unavailable,
    /// The connection to the provider timed out.
    ConnectTimeout,
    /// The connection to the provider failed for another reason.
    ConnectFailure,
    /// Any other transport fault while talking to the provider.
    Transport,
}

/// The text extracted from a provider response: the first translation's
/// text, or the empty sequence where the provider returned no translations
/// or omitted the text.
pub open spec fn spec_extract(resp: RawTranslateResponseView) -> Seq<char> {
    match resp.translations {
        Some(ts) => if ts.len() > 0 {
            match ts[0].translated_text {
                Some(t) => t,
                None => Seq::empty(),
            }
        } else {
            Seq::empty()
        },
        None => Seq::empty(),
    }
}

/// Extracts the first returned translation's text from a provider response.
/// A response with no translations, an empty translation list, or a first
/// translation without text yields the empty string rather than an error.
pub fn extract_translation(resp: &RawTranslateResponse) -> (r: String)
    ensures
        r@ == spec_extract(resp@),
{
    match &resp.translations {
        Some(ts) => {
            if ts.len() > 0 {
                match &ts[0].translated_text {
                    Some(t) => t.clone(),
                    None => String::new(),
                }
            } else {
                String::new()
            }
        },
        None => String::new(),
    }
}

/// What `html_escape::decode_html_entities` returns for a given character
/// sequence: the text with HTML entities rewritten to the characters they
/// stand for. The decoding depends on the input characters alone.
pub uninterp spec fn decoded_entities(s: Seq<char>) -> Seq<char>;

/// Relies on html_escape::decode_html_entities: the result is a pure
/// function of the input characters, and an empty input decodes to an empty
/// output.
#[verifier::external_body]
fn decode_entities(s: &str) -> (r: String)
    ensures
        r@ == decoded_entities(s@),
        s@.len() == 0 ==> r@.len() == 0,
{
    html_escape::decode_html_entities(s).into_owned()
}

/// The text surfaced to the caller for a provider response: the extracted
/// translation with HTML entities decoded.
pub open spec fn spec_surfaced_text(resp: RawTranslateResponseView) -> Seq<char> {
    decoded_entities(spec_extract(resp))
}

/// Turns a successful provider response into the text handed back to the
/// caller: the first translation's text is extracted and then run through
/// HTML-entity decoding, because the provider may return HTML-escaped
/// punctuation. A response carrying no translation at all surfaces as the
/// empty string, never as an error.
pub fn process_provider_response(resp: &RawTranslateResponse) -> (r: String)
    ensures
        r@ == spec_surfaced_text(resp@),
        spec_extract(resp@).len() == 0 ==> r@.len() == 0,
{
    let text = extract_translation(resp);
    decode_entities(text.as_str())
}

} // verus!
