//! Item lookup and filter engine.
//!
//! Loads item definition records (parsed from JSON files by the caller),
//! filters them by regular-expression matches on the name field and by
//! explicit id sets collected from auxiliary JSON texts, deduplicates by
//! full structural equality, sorts by id, and renders the result in one
//! of several textual formats.

pub mod format;
pub mod ids;
pub mod item_definition;
pub mod loader;
pub mod modify;
pub mod pattern;
pub mod search;
pub mod sort;

use vstd::prelude::*;
use crate::format::{format_items, render, PrintFormat};
use crate::ids::{all_id_lists_parse, all_tuple_lists_parse, requested_ids};
use crate::item_definition::{ItemDefinition, ItemView};
use crate::search::{all_patterns_valid, fetch_items, is_match_result, views_of};
use crate::sort::{sort_by_id, sorted_by_id};

verus! {

/// An error of the engine: each variant names the input that was rejected.
#[derive(Clone, Copy, Debug, PartialEq, Eq, Structural)]
pub enum EngineError {
    /// A supplied pattern is not a valid regular expression.
    InvalidPattern,
    /// An id-list file does not hold a JSON array of integers.
    MalformedIdList,
    /// An id/name-tuple file does not hold a JSON array of `[integer, string]` pairs.
    MalformedIdNameList,
}

/// The whole print command's core, on already-loaded records: match the
/// request, sort the result by id, render it in the requested format, and
/// return the exact output text. An invalid pattern or a malformed
/// auxiliary text fails the whole command; no partial output is produced.
pub fn print_items(
    records: Vec<ItemDefinition>,
    pattern_texts: &Vec<String>,
    list_texts: &Vec<String>,
    tuple_texts: &Vec<String>,
    format: &PrintFormat,
) -> (r: Result<String, EngineError>)
    ensures
        r is Ok <==> all_patterns_valid(pattern_texts.deep_view()) && all_id_lists_parse(
            list_texts.deep_view(),
        ) && all_tuple_lists_parse(tuple_texts.deep_view()),
        r == Err::<String, EngineError>(EngineError::InvalidPattern) <==> !all_patterns_valid(
            pattern_texts.deep_view(),
        ),
        r == Err::<String, EngineError>(EngineError::MalformedIdList) <==> (all_patterns_valid(
            pattern_texts.deep_view(),
        ) && !all_id_lists_parse(list_texts.deep_view())),
        r == Err::<String, EngineError>(EngineError::MalformedIdNameList) <==> (
        all_patterns_valid(pattern_texts.deep_view()) && all_id_lists_parse(list_texts.deep_view())
            && !all_tuple_lists_parse(tuple_texts.deep_view())),
        r is Ok ==> exists|s: Seq<ItemView>|
            sorted_by_id(s) && is_match_result(
                views_of(records@),
                pattern_texts.deep_view(),
                requested_ids(list_texts.deep_view(), tuple_texts.deep_view()),
                s,
            ) && r.unwrap()@ == render(*format, s),
{
    let ghost rv = views_of(records@);
    let ghost pats = pattern_texts.deep_view();
    let ghost ids = requested_ids(list_texts.deep_view(), tuple_texts.deep_view());
    let items = match fetch_items(records, pattern_texts, list_texts, tuple_texts) {
        Ok(v) => v,
        Err(e) => {
            return Err(e);
        },
    };
    let sorted = sort_by_id(items);
    let ghost s = views_of(sorted@);
    proof {
        assert(is_match_result(rv, pats, ids, s)) by {
            assert forall|a: ItemView| #[trigger] s.contains(a) <==> rv.contains(a) && crate::search::matched(
                a,
                pats,
                ids,
            ) by {
                assert(s.contains(a) <==> views_of(items@).contains(a));
            }
        }
    }
    let text = format_items(&sorted, format);
    proof {
        assert(sorted_by_id(s) && is_match_result(rv, pats, ids, s) && text@ == render(*format, s));
    }
    Ok(text)
}

} // verus!
