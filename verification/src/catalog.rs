//! Language catalog normalization: turning the provider's raw, loosely-typed
//! language list into the clean set of languages usable both as source and
//! as target.

use crate::model::{Language, LanguageView, RawLanguageEntry};
use vstd::prelude::*;

verus! {

/// Whether a raw catalog entry is usable: a non-empty code, a non-empty
/// display name, and explicit support as both source and target.
pub open spec fn spec_entry_usable(e: RawLanguageEntry) -> bool {
    &&& e.language_code matches Some(code) && code@.len() > 0
    &&& e.display_name matches Some(name) && name@.len() > 0
    &&& e.support_source == Some(true)
    &&& e.support_target == Some(true)
}

/// The normalized record of a usable raw entry, or nothing for an entry
/// that normalization drops.
pub open spec fn spec_normalized_entry(e: RawLanguageEntry) -> Option<LanguageView> {
    if spec_entry_usable(e) {
        Some(LanguageView { code: e.language_code->0@, display_name: e.display_name->0@ })
    } else {
        None
    }
}

/// The normalized catalog of a raw provider list: the usable entries, in
/// their original order, reduced to code and display name.
pub open spec fn spec_normalize(entries: Seq<RawLanguageEntry>) -> Seq<LanguageView>
    decreases entries.len(),
{
    if entries.len() == 0 {
        Seq::empty()
    } else {
        spec_normalize(entries.drop_last()) + match spec_normalized_entry(entries.last()) {
            Some(l) => seq![l],
            None => Seq::empty(),
        }
    }
}

/// Turns the provider's raw language list into the clean catalog: an entry
/// is kept exactly when it carries a non-empty code, a non-empty display
/// name, and both of its support flags true, and each kept entry surfaces as
/// a `{code, display_name}` record, in the original order. Entries missing a
/// field, or with an empty code or name, are dropped silently, never
/// reported as errors, and duplicates are not suppressed. An empty or wholly
/// unusable list yields the empty catalog.
pub fn normalize_catalog(entries: &Vec<RawLanguageEntry>) -> (r: Vec<Language>)
    ensures
        r.deep_view() == spec_normalize(entries@),
{
    let mut out: Vec<Language> = Vec::new();
    let mut i: usize = 0;
    while i < entries.len()
        invariant
            i <= entries.len(),
            out.deep_view() == spec_normalize(entries@.take(i as int)),
        decreases entries.len() - i,
    {
        let e = &entries[i];
        let ghost prefix = out.deep_view();
        match (&e.language_code, &e.display_name, &e.support_source, &e.support_target) {
            (Some(code), Some(name), Some(true), Some(true)) => {
                if !code.as_str().is_empty() && !name.as_str().is_empty() {
                    out.push(Language { code: code.clone(), display_name: name.clone() });
                }
            },
            _ => {},
        }
        proof {
            let taken = entries@.take(i + 1);
            assert(taken.drop_last() =~= entries@.take(i as int));
            assert(taken.last() == entries@[i as int]);
            assert(out.deep_view() =~= spec_normalize(taken));
        }
        i = i + 1;
    }
    proof {
        assert(entries@.take(entries@.len() as int) =~= entries@);
    }
    out
}

} // verus!
