//! The match engine: given a loaded record set and a match request (regex
//! patterns over the name field, and explicit target ids), produce the
//! deduplicated set of records that satisfy at least one predicate.

use vstd::prelude::*;
use crate::EngineError;
use crate::ids::{
    all_id_lists_parse, all_tuple_lists_parse, collect_ids, requested_ids,
};
use crate::item_definition::{item_eq, ItemDefinition, ItemView};
use crate::pattern::{regex_match, regex_valid, CompiledPattern};

verus! {

/// The views of a sequence of records.
pub open spec fn views_of(s: Seq<ItemDefinition>) -> Seq<ItemView> {
    s.map_values(|r: ItemDefinition| r@)
}

/// The pattern texts of a sequence of compiled patterns.
pub open spec fn pats_views(s: Seq<CompiledPattern>) -> Seq<Seq<char>> {
    s.map_values(|p: CompiledPattern| p.pattern())
}

/// The name a record is matched under: an absent name is treated as the
/// empty string.
pub open spec fn name_or_empty(a: ItemView) -> Seq<char> {
    match a.name {
        Some(n) => n,
        None => Seq::empty(),
    }
}

/// Whether a record satisfies at least one predicate of the request: some
/// pattern matches its name, or its id is among the target ids. Matching is
/// purely additive; an empty request matches nothing.
pub open spec fn matched(a: ItemView, pats: Seq<Seq<char>>, ids: Seq<i32>) -> bool {
    (exists|k: int| 0 <= k < pats.len() && regex_match(#[trigger] pats[k], name_or_empty(a)))
        || ids.contains(a.id)
}

/// What the match engine returns: a duplicate-free sequence holding exactly
/// the records of the input that satisfy at least one predicate.
pub open spec fn is_match_result(
    rs: Seq<ItemView>,
    pats: Seq<Seq<char>>,
    ids: Seq<i32>,
    out: Seq<ItemView>,
) -> bool {
    &&& out.no_duplicates()
    &&& forall|a: ItemView| #[trigger] out.contains(a) <==> rs.contains(a) && matched(a, pats, ids)
}

/// Every pattern text is a valid regular expression.
pub open spec fn all_patterns_valid(ps: Seq<Seq<char>>) -> bool {
    forall|i: int| 0 <= i < ps.len() ==> regex_valid(#[trigger] ps[i])
}

fn ids_contain(ids: &Vec<i32>, x: i32) -> (b: bool)
    ensures
        b == ids@.contains(x),
{
    let mut i: usize = 0;
    while i < ids.len()
        invariant
            i <= ids.len(),
            forall|k: int| 0 <= k < i ==> ids@[k] != x,
        decreases ids.len() - i,
    {
        if ids[i] == x {
            return true;
        }
        i += 1;
    }
    proof {
        if ids@.contains(x) {
            let k = choose|k: int| 0 <= k < ids@.len() && ids@[k] == x;
            assert(ids@[k] != x);
        }
    }
    false
}

fn contains_view(v: &Vec<ItemDefinition>, r: &ItemDefinition) -> (b: bool)
    ensures
        b == views_of(v@).contains(r@),
{
    let mut i: usize = 0;
    while i < v.len()
        invariant
            i <= v.len(),
            forall|k: int| 0 <= k < i ==> views_of(v@)[k] != r@,
        decreases v.len() - i,
    {
        if item_eq(&v[i], r) {
            assert(views_of(v@)[i as int] == r@);
            return true;
        }
        i += 1;
    }
    proof {
        if views_of(v@).contains(r@) {
            let k = choose|k: int| 0 <= k < views_of(v@).len() && views_of(v@)[k] == r@;
            assert(views_of(v@)[k] != r@);
        }
    }
    false
}

/// Whether any pattern matches the record's name (an absent name is the
/// empty string), or its id is among the target ids.
fn matches_record(r: &ItemDefinition, patterns: &Vec<CompiledPattern>, ids: &Vec<i32>) -> (b: bool)
    ensures
        b == matched(r@, pats_views(patterns@), ids@),
{
    let name_ref: &str = match &r.name {
        Some(s) => s.as_str(),
        None => "",
    };
    proof {
        reveal_strlit("");
        assert(""@ =~= Seq::<char>::empty());
        assert(name_ref@ == name_or_empty(r@));
    }
    let ghost pv = pats_views(patterns@);
    let mut found = false;
    let mut i: usize = 0;
    while i < patterns.len()
        invariant
            i <= patterns.len(),
            pv == pats_views(patterns@),
            name_ref@ == name_or_empty(r@),
            found == exists|k: int|
                0 <= k < i && regex_match(#[trigger] pv[k], name_or_empty(r@)),
        decreases patterns.len() - i,
    {
        let m = patterns[i].is_match(name_ref);
        proof {
            assert(pv[i as int] == patterns@[i as int].pattern());
            if m {
                assert(regex_match(pv[i as int], name_or_empty(r@)));
            } else if !found {
                assert forall|k: int| 0 <= k < i + 1 implies !regex_match(
                    #[trigger] pv[k],
                    name_or_empty(r@),
                ) by {
                    if k < i {
                        assert(!(exists|k2: int|
                            0 <= k2 < i && regex_match(#[trigger] pv[k2], name_or_empty(r@))));
                    }
                }
            }
        }
        found = found || m;
        i += 1;
    }
    found || ids_contain(ids, r.id)
}

/// Filter the record set by the compiled request: keep every record that
/// satisfies at least one predicate, deduplicated by full structural
/// equality (inserting the same record twice is a no-op).
pub fn find_matching(
    records: Vec<ItemDefinition>,
    patterns: &Vec<CompiledPattern>,
    ids: &Vec<i32>,
) -> (out: Vec<ItemDefinition>)
    ensures
        is_match_result(views_of(records@), pats_views(patterns@), ids@, views_of(out@)),
{
    let ghost origv = views_of(records@);
    let ghost pv = pats_views(patterns@);
    let mut recs = records;
    let mut out: Vec<ItemDefinition> = Vec::new();
    let ghost mut done: Seq<ItemView> = Seq::empty();
    proof {
        assert(origv =~= done + views_of(recs@));
    }
    while recs.len() > 0
        invariant
            pv == pats_views(patterns@),
            origv == done + views_of(recs@),
            views_of(out@).no_duplicates(),
            forall|a: ItemView| #[trigger] views_of(out@).contains(a) <==> done.contains(a)
                && matched(a, pv, ids@),
        decreases recs.len(),
    {
        broadcast use vstd::seq_lib::group_seq_properties;

        let ghost old_recs = recs@;
        let ghost old_done = done;
        let r = recs.remove(0);
        proof {
            assert(views_of(old_recs)[0] == r@);
            assert(views_of(recs@) =~= views_of(old_recs).subrange(1, old_recs.len() as int));
            assert(views_of(old_recs) =~= seq![r@] + views_of(recs@));
            done = done + seq![r@];
            assert(origv =~= done + views_of(recs@));
            assert(seq![r@].contains(r@));
            assert forall|a: ItemView| #[trigger] done.contains(a) implies old_done.contains(a)
                || a == r@ by {
                if !old_done.contains(a) {
                    assert(seq![r@].contains(a));
                    let k = choose|k: int| 0 <= k < seq![r@].len() && seq![r@][k] == a;
                    assert(a == r@);
                }
            }
        }
        let m = matches_record(&r, patterns, ids);
        let dup = contains_view(&out, &r);
        if m && !dup {
            let ghost old_out = out@;
            out.push(r);
            proof {
                assert(views_of(out@) =~= views_of(old_out).push(r@));
                assert forall|a: ItemView| #[trigger] views_of(out@).contains(a) implies (
                done.contains(a) && matched(a, pv, ids@)) by {
                    if a != r@ {
                        assert(views_of(old_out).contains(a));
                    }
                }
                assert forall|a: ItemView|
                    done.contains(a) && matched(a, pv, ids@) implies #[trigger] views_of(
                    out@,
                ).contains(a) by {
                    if a == r@ {
                        assert(views_of(out@)[views_of(out@).len() - 1] == r@);
                    } else {
                        assert(old_done.contains(a));
                        assert(views_of(old_out).contains(a));
                    }
                }
                assert forall|i: int, j: int|
                    0 <= i < j < views_of(out@).len() implies views_of(out@)[i] != views_of(
                    out@,
                )[j] by {
                    if j == views_of(out@).len() - 1 {
                        assert(views_of(old_out)[i] == views_of(out@)[i]);
                        assert(views_of(old_out).contains(views_of(old_out)[i]));
                    }
                }
            }
        } else {
            proof {
                assert forall|a: ItemView| #[trigger] views_of(out@).contains(a) implies (
                done.contains(a) && matched(a, pv, ids@)) by {
                    assert(old_done.contains(a) && matched(a, pv, ids@));
                }
                assert forall|a: ItemView|
                    done.contains(a) && matched(a, pv, ids@) implies #[trigger] views_of(
                    out@,
                ).contains(a) by {
                    if a == r@ {
                        assert(m);
                        assert(views_of(out@).contains(r@));
                    }
                }
            }
        }
    }
    proof {
        assert(views_of(recs@) =~= Seq::<ItemView>::empty());
        assert(origv =~= done);
    }
    out
}

/// Compile every pattern text; an invalid pattern is a configuration error.
pub fn compile_patterns(pattern_texts: &Vec<String>) -> (r: Result<
    Vec<CompiledPattern>,
    EngineError,
>)
    ensures
        r is Ok <==> all_patterns_valid(pattern_texts.deep_view()),
        r is Err ==> r == Err::<Vec<CompiledPattern>, EngineError>(EngineError::InvalidPattern),
        r is Ok ==> pats_views(r.unwrap()@) == pattern_texts.deep_view(),
{
    let ghost pv = pattern_texts.deep_view();
    let mut compiled: Vec<CompiledPattern> = Vec::new();
    let mut i: usize = 0;
    while i < pattern_texts.len()
        invariant
            i <= pattern_texts.len(),
            pv == pattern_texts.deep_view(),
            pv.len() == pattern_texts@.len(),
            forall|k: int| 0 <= k < i ==> regex_valid(#[trigger] pv[k]),
            pats_views(compiled@) =~= pv.subrange(0, i as int),
        decreases pattern_texts.len() - i,
    {
        proof {
            assert(pv[i as int] == pattern_texts@[i as int]@);
        }
        match CompiledPattern::new(pattern_texts[i].as_str()) {
            Ok(p) => {
                let ghost old_compiled = compiled@;
                compiled.push(p);
                proof {
                    assert(pats_views(compiled@) =~= pats_views(old_compiled).push(p.pattern()));
                    assert(pats_views(compiled@) =~= pv.subrange(0, i + 1));
                }
            },
            Err(_) => {
                assert(!all_patterns_valid(pv));
                return Err(EngineError::InvalidPattern);
            },
        }
        i += 1;
    }
    proof {
        assert(pv.subrange(0, pv.len() as int) =~= pv);
        assert(pats_views(compiled@) == pv);
    }
    Ok(compiled)
}

/// The whole match step of one invocation: compile the patterns, gather the
/// target ids from the auxiliary texts, and filter the record set. Any
/// invalid pattern or malformed auxiliary text fails the whole operation;
/// no partial result is produced.
pub fn fetch_items(
    records: Vec<ItemDefinition>,
    pattern_texts: &Vec<String>,
    list_texts: &Vec<String>,
    tuple_texts: &Vec<String>,
) -> (r: Result<Vec<ItemDefinition>, EngineError>)
    ensures
        r is Ok <==> all_patterns_valid(pattern_texts.deep_view()) && all_id_lists_parse(
            list_texts.deep_view(),
        ) && all_tuple_lists_parse(tuple_texts.deep_view()),
        r == Err::<Vec<ItemDefinition>, EngineError>(EngineError::InvalidPattern)
            <==> !all_patterns_valid(pattern_texts.deep_view()),
        r == Err::<Vec<ItemDefinition>, EngineError>(EngineError::MalformedIdList) <==> (
        all_patterns_valid(pattern_texts.deep_view()) && !all_id_lists_parse(
            list_texts.deep_view(),
        )),
        r == Err::<Vec<ItemDefinition>, EngineError>(EngineError::MalformedIdNameList) <==> (
        all_patterns_valid(pattern_texts.deep_view()) && all_id_lists_parse(list_texts.deep_view())
            && !all_tuple_lists_parse(tuple_texts.deep_view())),
        r is Ok ==> is_match_result(
            views_of(records@),
            pattern_texts.deep_view(),
            requested_ids(list_texts.deep_view(), tuple_texts.deep_view()),
            views_of(r.unwrap()@),
        ),
{
    let patterns = match compile_patterns(pattern_texts) {
        Ok(p) => p,
        Err(e) => {
            return Err(e);
        },
    };
    let ids = match collect_ids(list_texts, tuple_texts) {
        Ok(v) => v,
        Err(e) => {
            return Err(e);
        },
    };
    let result = find_matching(records, &patterns, &ids);
    Ok(result)
}

/// No record is invented: every entry of a match result comes from the
/// record set.
pub proof fn lemma_result_subset(
    rs: Seq<ItemView>,
    pats: Seq<Seq<char>>,
    ids: Seq<i32>,
    out: Seq<ItemView>,
)
    requires
        is_match_result(rs, pats, ids, out),
    ensures
        forall|a: ItemView| #[trigger] out.contains(a) ==> rs.contains(a),
{
}

/// Idempotence: any two match results for the same record set and the same
/// request hold the same entries; order aside, the match is deterministic.
pub proof fn lemma_match_deterministic(
    rs: Seq<ItemView>,
    pats: Seq<Seq<char>>,
    ids: Seq<i32>,
    out1: Seq<ItemView>,
    out2: Seq<ItemView>,
)
    requires
        is_match_result(rs, pats, ids, out1),
        is_match_result(rs, pats, ids, out2),
    ensures
        out1.to_set() == out2.to_set(),
{
    assert forall|a: ItemView| #[trigger] out1.contains(a) implies out2.contains(a) by {}
    assert forall|a: ItemView| #[trigger] out2.contains(a) implies out1.contains(a) by {}
    assert(out1.to_set() =~= out2.to_set());
}

/// An empty request (no patterns, no ids) yields an empty result, whatever
/// the record set holds.
pub proof fn lemma_empty_request(rs: Seq<ItemView>, out: Seq<ItemView>)
    requires
        is_match_result(rs, Seq::empty(), Seq::empty(), out),
    ensures
        out == Seq::<ItemView>::empty(),
{
    assert forall|a: ItemView| !(#[trigger] out.contains(a)) by {
        assert(!Seq::<i32>::empty().contains(a.id));
    }
    if out.len() > 0 {
        assert(out.contains(out[0]));
    }
    assert(out =~= Seq::<ItemView>::empty());
}

/// Union semantics: the match depends only on which ids are supplied, not on
/// how often or through which kind of auxiliary file. Two id sequences with
/// the same members select the same entries, and each exactly once.
pub proof fn lemma_ids_membership(
    rs: Seq<ItemView>,
    pats: Seq<Seq<char>>,
    ids1: Seq<i32>,
    ids2: Seq<i32>,
    out1: Seq<ItemView>,
    out2: Seq<ItemView>,
)
    requires
        forall|x: i32| ids1.contains(x) <==> ids2.contains(x),
        is_match_result(rs, pats, ids1, out1),
        is_match_result(rs, pats, ids2, out2),
    ensures
        out1.to_set() == out2.to_set(),
{
    assert forall|a: ItemView| matched(a, pats, ids1) <==> matched(a, pats, ids2) by {
        assert(ids1.contains(a.id) <==> ids2.contains(a.id));
    }
    assert forall|a: ItemView| #[trigger] out1.contains(a) implies out2.contains(a) by {
        assert(matched(a, pats, ids1));
    }
    assert forall|a: ItemView| #[trigger] out2.contains(a) implies out1.contains(a) by {
        assert(matched(a, pats, ids2));
    }
    assert(out1.to_set() =~= out2.to_set());
}

} // verus!
