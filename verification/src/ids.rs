//! Gathering target ids from auxiliary JSON texts: id-list files hold a JSON
//! array of integers, id/name-tuple files a JSON array of `[integer, string]`
//! pairs, of which only the integer is used. All collected ids are unioned,
//! independent of which file contributed them.

use vstd::prelude::*;
use crate::EngineError;

verus! {

/// What `serde_json::from_str::<Vec<i32>>` returns on a text: `Some` with the
/// parsed integers when the text is a JSON array of integers that fit in
/// `i32`, `None` otherwise.
pub uninterp spec fn id_array_of(text: Seq<char>) -> Option<Seq<i32>>;

/// What `serde_json::from_str::<Vec<(i32, String)>>` returns on a text:
/// `Some` with the parsed pairs when the text is a JSON array of
/// `[integer, string]` pairs, `None` otherwise.
pub uninterp spec fn id_name_array_of(text: Seq<char>) -> Option<Seq<(i32, Seq<char>)>>;

#[verifier::external_type_specification]
#[verifier::external_body]
pub struct ExJsonError(serde_json::Error);

/// Relies on `serde_json::from_str::<Vec<i32>>`: parsing is a function of
/// the input text alone, and fails exactly when the text is not a JSON array
/// of integers that fit in `i32`.
#[verifier::external_body]
fn parse_id_array(text: &str) -> (r: Result<Vec<i32>, serde_json::Error>)
    ensures
        r is Ok <==> id_array_of(text@) is Some,
        r is Ok ==> r.unwrap()@ == id_array_of(text@).unwrap(),
{
    serde_json::from_str(text)
}

/// Relies on `serde_json::from_str::<Vec<(i32, String)>>`: parsing is a
/// function of the input text alone, and fails exactly when the text is not
/// a JSON array of `[integer, string]` pairs.
#[verifier::external_body]
fn parse_id_name_array(text: &str) -> (r: Result<Vec<(i32, String)>, serde_json::Error>)
    ensures
        r is Ok <==> id_name_array_of(text@) is Some,
        r is Ok ==> r.unwrap().deep_view() == id_name_array_of(text@).unwrap(),
{
    serde_json::from_str(text)
}

/// Every id-list text parses as a JSON array of integers.
pub open spec fn all_id_lists_parse(texts: Seq<Seq<char>>) -> bool {
    forall|i: int| 0 <= i < texts.len() ==> #[trigger] id_array_of(texts[i]) is Some
}

/// Every id/name-tuple text parses as a JSON array of pairs.
pub open spec fn all_tuple_lists_parse(texts: Seq<Seq<char>>) -> bool {
    forall|i: int| 0 <= i < texts.len() ==> #[trigger] id_name_array_of(texts[i]) is Some
}

/// The ids of all id-list texts, in file order.
pub open spec fn concat_id_arrays(texts: Seq<Seq<char>>) -> Seq<i32>
    decreases texts.len(),
{
    if texts.len() == 0 {
        Seq::empty()
    } else {
        concat_id_arrays(texts.drop_last()) + id_array_of(texts.last()).unwrap()
    }
}

/// The ids of all id/name-tuple texts, in file order.
pub open spec fn concat_tuple_ids(texts: Seq<Seq<char>>) -> Seq<i32>
    decreases texts.len(),
{
    if texts.len() == 0 {
        Seq::empty()
    } else {
        concat_tuple_ids(texts.drop_last()) + id_name_array_of(texts.last()).unwrap().map_values(
            |t: (i32, Seq<char>)| t.0,
        )
    }
}

/// All ids that the auxiliary texts supply, id-list files first. Only
/// membership in this sequence matters to the match engine.
pub open spec fn requested_ids(list_texts: Seq<Seq<char>>, tuple_texts: Seq<Seq<char>>) -> Seq<
    i32,
> {
    concat_id_arrays(list_texts) + concat_tuple_ids(tuple_texts)
}

/// Some id-list text supplies the id.
pub open spec fn id_in_lists(x: i32, texts: Seq<Seq<char>>) -> bool {
    exists|i: int|
        0 <= i < texts.len() && #[trigger] id_array_of(texts[i]).unwrap().contains(x)
}

/// Some id/name-tuple text supplies the id as the integer of one of its pairs.
pub open spec fn id_in_tuple_lists(x: i32, texts: Seq<Seq<char>>) -> bool {
    exists|i: int, j: int|
        0 <= i < texts.len() && 0 <= j < id_name_array_of(texts[i]).unwrap().len()
            && (#[trigger] id_name_array_of(texts[i]).unwrap()[j]).0 == x
}

proof fn lemma_concat_id_arrays_membership(x: i32, texts: Seq<Seq<char>>)
    ensures
        concat_id_arrays(texts).contains(x) <==> id_in_lists(x, texts),
    decreases texts.len(),
{
    broadcast use vstd::seq_lib::group_seq_properties;

    if texts.len() == 0 {
    } else {
        let pre: Seq<Seq<char>> = texts.drop_last();
        let last = id_array_of(texts.last()).unwrap();
        lemma_concat_id_arrays_membership(x, pre);
        assert(concat_id_arrays(texts) == concat_id_arrays(pre) + last);
        if concat_id_arrays(texts).contains(x) {
            if concat_id_arrays(pre).contains(x) {
                let i = choose|i: int|
                    0 <= i < pre.len() && #[trigger] id_array_of(pre[i]).unwrap().contains(x);
                assert(id_array_of(texts[i]).unwrap().contains(x));
            } else {
                assert(last.contains(x));
                assert(id_array_of(texts[texts.len() - 1]).unwrap().contains(x));
            }
        }
        if id_in_lists(x, texts) {
            let i = choose|i: int|
                0 <= i < texts.len() && #[trigger] id_array_of(texts[i]).unwrap().contains(x);
            if i < texts.len() - 1 {
                assert(id_array_of(pre[i]).unwrap().contains(x));
                assert(concat_id_arrays(pre).contains(x));
            } else {
                assert(last.contains(x));
            }
        }
    }
}

proof fn lemma_concat_tuple_ids_membership(x: i32, texts: Seq<Seq<char>>)
    ensures
        concat_tuple_ids(texts).contains(x) <==> id_in_tuple_lists(x, texts),
    decreases texts.len(),
{
    broadcast use vstd::seq_lib::group_seq_properties;

    if texts.len() == 0 {
    } else {
        let pre = texts.drop_last();
        let pairs = id_name_array_of(texts.last()).unwrap();
        let mapped = pairs.map_values(|t: (i32, Seq<char>)| t.0);
        lemma_concat_tuple_ids_membership(x, pre);
        assert(concat_tuple_ids(texts) == concat_tuple_ids(pre) + mapped);
        if concat_tuple_ids(texts).contains(x) {
            if concat_tuple_ids(pre).contains(x) {
                let (i, j) = choose|i: int, j: int|
                    0 <= i < pre.len() && 0 <= j < id_name_array_of(pre[i]).unwrap().len() && (
                    #[trigger] id_name_array_of(pre[i]).unwrap()[j]).0 == x;
                assert((id_name_array_of(texts[i]).unwrap()[j]).0 == x);
            } else {
                assert(mapped.contains(x));
                let j = choose|j: int| 0 <= j < mapped.len() && mapped[j] == x;
                assert((id_name_array_of(texts[texts.len() - 1]).unwrap()[j]).0 == x);
            }
        }
        if id_in_tuple_lists(x, texts) {
            let (i, j) = choose|i: int, j: int|
                0 <= i < texts.len() && 0 <= j < id_name_array_of(texts[i]).unwrap().len() && (
                #[trigger] id_name_array_of(texts[i]).unwrap()[j]).0 == x;
            if i < texts.len() - 1 {
                assert((id_name_array_of(pre[i]).unwrap()[j]).0 == x);
                assert(concat_tuple_ids(pre).contains(x));
            } else {
                assert(mapped[j] == x);
                assert(mapped.contains(x));
            }
        }
    }
}

/// Union semantics of the collected ids: an id is requested exactly when
/// some id-list file holds it or some id/name-tuple file holds a pair with
/// it, whichever kind of file and however many of them supply it.
pub proof fn lemma_requested_id_membership(
    x: i32,
    list_texts: Seq<Seq<char>>,
    tuple_texts: Seq<Seq<char>>,
)
    ensures
        requested_ids(list_texts, tuple_texts).contains(x) <==> (id_in_lists(x, list_texts)
            || id_in_tuple_lists(x, tuple_texts)),
{
    broadcast use vstd::seq_lib::group_seq_properties;

    lemma_concat_id_arrays_membership(x, list_texts);
    lemma_concat_tuple_ids_membership(x, tuple_texts);
}

/// Parse every auxiliary text and union all ids found, in file order.
/// A malformed text fails the whole collection; id-list texts are read first.
pub fn collect_ids(list_texts: &Vec<String>, tuple_texts: &Vec<String>) -> (r: Result<
    Vec<i32>,
    EngineError,
>)
    ensures
        r is Ok <==> all_id_lists_parse(list_texts.deep_view()) && all_tuple_lists_parse(
            tuple_texts.deep_view(),
        ),
        r == Err::<Vec<i32>, EngineError>(EngineError::MalformedIdList) <==> !all_id_lists_parse(
            list_texts.deep_view(),
        ),
        r == Err::<Vec<i32>, EngineError>(EngineError::MalformedIdNameList) <==> (
        all_id_lists_parse(list_texts.deep_view()) && !all_tuple_lists_parse(
            tuple_texts.deep_view(),
        )),
        r is Ok ==> r.unwrap()@ == requested_ids(list_texts.deep_view(), tuple_texts.deep_view()),
{
    let ghost lv = list_texts.deep_view();
    let ghost tv = tuple_texts.deep_view();
    let mut ids: Vec<i32> = Vec::new();
    let mut i: usize = 0;
    while i < list_texts.len()
        invariant
            i <= list_texts.len(),
            lv == list_texts.deep_view(),
            lv.len() == list_texts@.len(),
            forall|k: int| 0 <= k < i ==> #[trigger] id_array_of(lv[k]) is Some,
            ids@ == concat_id_arrays(lv.subrange(0, i as int)),
        decreases list_texts.len() - i,
    {
        proof {
            assert(lv[i as int] == list_texts@[i as int]@);
        }
        match parse_id_array(list_texts[i].as_str()) {
            Ok(mut v) => {
                proof {
                    assert(v@ == id_array_of(lv[i as int]).unwrap());
                    assert(lv.subrange(0, i + 1).drop_last() =~= lv.subrange(0, i as int));
                    assert(lv.subrange(0, i + 1).last() == lv[i as int]);
                }
                ids.append(&mut v);
                assert(ids@ == concat_id_arrays(lv.subrange(0, i + 1)));
            },
            Err(_) => {
                assert(!all_id_lists_parse(lv));
                return Err(EngineError::MalformedIdList);
            },
        }
        i += 1;
    }
    proof {
        assert(lv.subrange(0, lv.len() as int) =~= lv);
        assert(all_id_lists_parse(lv));
    }
    let mut j: usize = 0;
    while j < tuple_texts.len()
        invariant
            j <= tuple_texts.len(),
            lv == list_texts.deep_view(),
            tv == tuple_texts.deep_view(),
            tv.len() == tuple_texts@.len(),
            all_id_lists_parse(lv),
            forall|k: int| 0 <= k < j ==> #[trigger] id_name_array_of(tv[k]) is Some,
            ids@ == concat_id_arrays(lv) + concat_tuple_ids(tv.subrange(0, j as int)),
        decreases tuple_texts.len() - j,
    {
        proof {
            assert(tv[j as int] == tuple_texts@[j as int]@);
        }
        match parse_id_name_array(tuple_texts[j].as_str()) {
            Ok(v) => {
                let ghost pairs = id_name_array_of(tv[j as int]).unwrap();
                proof {
                    assert(v.deep_view() == pairs);
                    assert(v@.len() == pairs.len());
                    assert(tv.subrange(0, j + 1).drop_last() =~= tv.subrange(0, j as int));
                    assert(tv.subrange(0, j + 1).last() == tv[j as int]);
                }
                let mut k: usize = 0;
                while k < v.len()
                    invariant
                        k <= v.len(),
                        v.deep_view() == pairs,
                        v@.len() == pairs.len(),
                        ids@ == concat_id_arrays(lv) + concat_tuple_ids(tv.subrange(0, j as int))
                            + pairs.map_values(|t: (i32, Seq<char>)| t.0).subrange(0, k as int),
                    decreases v.len() - k,
                {
                    let ghost mapped = pairs.map_values(|t: (i32, Seq<char>)| t.0);
                    proof {
                        assert(pairs[k as int] == v@[k as int].deep_view());
                        assert(mapped[k as int] == v@[k as int].0);
                        assert(mapped.subrange(0, k + 1) =~= mapped.subrange(0, k as int).push(
                            mapped[k as int],
                        ));
                    }
                    ids.push(v[k].0);
                    k += 1;
                }
                proof {
                    let mapped = pairs.map_values(|t: (i32, Seq<char>)| t.0);
                    assert(mapped.subrange(0, mapped.len() as int) =~= mapped);
                    assert(ids@ == concat_id_arrays(lv) + concat_tuple_ids(tv.subrange(0, j + 1)));
                }
            },
            Err(_) => {
                assert(!all_tuple_lists_parse(tv));
                return Err(EngineError::MalformedIdNameList);
            },
        }
        j += 1;
    }
    proof {
        assert(tv.subrange(0, tv.len() as int) =~= tv);
        assert(all_tuple_lists_parse(tv));
    }
    Ok(ids)
}

} // verus!
