//! Deterministic ordering of a result set: non-decreasing by id. Ids are
//! expected unique in the data source, so ties can only arise between equal
//! ids; the order is total either way.

use vstd::prelude::*;
use vstd::multiset::Multiset;
use crate::item_definition::{ItemDefinition, ItemView};
use crate::search::views_of;

verus! {

/// Non-decreasing by id.
pub open spec fn sorted_by_id(s: Seq<ItemView>) -> bool {
    forall|i: int, j: int| 0 <= i <= j < s.len() ==> s[i].id <= s[j].id
}

/// Sort the records by id, ascending. The output holds exactly the input
/// records (as a multiset, so entries and their number are preserved; only
/// the order changes), and keeps the input's freedom from duplicates.
pub fn sort_by_id(items: Vec<ItemDefinition>) -> (out: Vec<ItemDefinition>)
    ensures
        sorted_by_id(views_of(out@)),
        views_of(out@).to_multiset() == views_of(items@).to_multiset(),
        out@.len() == items@.len(),
        forall|a: ItemView| views_of(out@).contains(a) <==> views_of(items@).contains(a),
        views_of(items@).no_duplicates() ==> views_of(out@).no_duplicates(),
{
    broadcast use vstd::seq_lib::group_seq_properties;
    broadcast use vstd::multiset::group_multiset_axioms;

    let ghost origv = views_of(items@);
    let mut rest = items;
    let mut out: Vec<ItemDefinition> = Vec::new();
    proof {
        assert(views_of(out@).to_multiset().add(views_of(rest@).to_multiset())
            =~= origv.to_multiset());
    }
    while rest.len() > 0
        invariant
            origv == views_of(items@),
            views_of(out@).to_multiset().add(views_of(rest@).to_multiset())
                == origv.to_multiset(),
            sorted_by_id(views_of(out@)),
            forall|i: int, j: int|
                0 <= i < views_of(out@).len() && 0 <= j < views_of(rest@).len() ==> views_of(
                    out@,
                )[i].id <= views_of(rest@)[j].id,
        decreases rest.len(),
    {
        let mut m: usize = 0;
        let mut i: usize = 1;
        while i < rest.len()
            invariant
                m < i <= rest@.len(),
                forall|k: int| 0 <= k < i ==> views_of(rest@)[m as int].id <= views_of(
                    rest@,
                )[k].id,
            decreases rest.len() - i,
        {
            if rest[i].id < rest[m].id {
                m = i;
            }
            i += 1;
        }
        let ghost old_rest = rest@;
        let ghost old_out = out@;
        let r = rest.remove(m);
        out.push(r);
        proof {
            views_of(old_out).to_multiset_ensures();
            views_of(old_rest).to_multiset_ensures();
            assert(views_of(old_rest)[m as int] == r@);
            assert(views_of(rest@) =~= views_of(old_rest).remove(m as int));
            assert(views_of(out@) =~= views_of(old_out).push(r@));
            assert(views_of(old_rest).to_multiset().contains(r@)) by {
                assert(views_of(old_rest).contains(r@));
            }
            assert(views_of(out@).to_multiset() =~= views_of(old_out).to_multiset().insert(r@));
            assert(views_of(rest@).to_multiset() =~= views_of(old_rest).to_multiset().remove(r@));
            assert(views_of(out@).to_multiset().add(views_of(rest@).to_multiset())
                =~= origv.to_multiset());
            assert forall|i2: int, j2: int|
                0 <= i2 < views_of(out@).len() && 0 <= j2 < views_of(rest@).len() implies views_of(
                out@,
            )[i2].id <= views_of(rest@)[j2].id by {
                let b = if j2 < m { j2 } else { j2 + 1 };
                assert(views_of(rest@)[j2] == views_of(old_rest)[b]);
                assert(r@.id <= views_of(old_rest)[b].id);
                if i2 < views_of(old_out).len() {
                    assert(views_of(out@)[i2] == views_of(old_out)[i2]);
                    assert(views_of(old_out)[i2].id <= views_of(old_rest)[b].id);
                }
            }
            assert forall|i2: int, j2: int|
                0 <= i2 <= j2 < views_of(out@).len() implies views_of(out@)[i2].id <= views_of(
                out@,
            )[j2].id by {
                if j2 < views_of(old_out).len() {
                    assert(views_of(out@)[i2] == views_of(old_out)[i2]);
                    assert(views_of(out@)[j2] == views_of(old_out)[j2]);
                } else if i2 < j2 {
                    assert(views_of(out@)[i2] == views_of(old_out)[i2]);
                    assert(views_of(out@)[j2] == r@);
                    assert(views_of(old_out)[i2].id <= views_of(old_rest)[m as int].id);
                }
            }
        }
    }
    proof {
        assert(views_of(rest@) =~= Seq::<ItemView>::empty());
        assert(views_of(rest@).to_multiset() =~= Multiset::<ItemView>::empty());
        assert(views_of(out@).to_multiset() =~= origv.to_multiset());
        assert(views_of(out@).to_multiset().len() == views_of(out@).len()) by {
            views_of(out@).to_multiset_ensures();
        }
        assert(origv.to_multiset().len() == origv.len()) by {
            origv.to_multiset_ensures();
        }
        assert forall|a: ItemView| views_of(out@).contains(a) <==> origv.contains(a) by {
            views_of(out@).to_multiset_ensures();
            origv.to_multiset_ensures();
            assert(views_of(out@).to_multiset().count(a) == origv.to_multiset().count(a));
        }
        if origv.no_duplicates() {
            origv.lemma_multiset_has_no_duplicates();
            views_of(out@).lemma_multiset_has_no_duplicates_conv();
        }
    }
    out
}

} // verus!
