//! The item definition record: one parsed JSON object describing a named,
//! identified entity with optional display fields.

use vstd::prelude::*;

verus! {

/// One item definition record. Only `id` and `name` are meaningful to
/// matching; the remaining fields are carried through opaquely.
pub struct ItemDefinition {
    pub id: i32,
    pub name: Option<String>,
    pub description: Option<String>,
    pub ground_actions: Option<[String; 5]>,
    pub inventory_actions: Option<[String; 5]>,
    pub members: bool,
    pub note_graphic_id: Option<i32>,
    pub note_info_id: Option<i32>,
    pub team: i32,
    pub stackable: bool,
    pub value: i32,
}

/// The mathematical value of a record: every field as a plain value.
/// Two records are the same entry exactly when their views are equal.
pub ghost struct ItemView {
    pub id: i32,
    pub name: Option<Seq<char>>,
    pub description: Option<Seq<char>>,
    pub ground_actions: Option<Seq<Seq<char>>>,
    pub inventory_actions: Option<Seq<Seq<char>>>,
    pub members: bool,
    pub note_graphic_id: Option<i32>,
    pub note_info_id: Option<i32>,
    pub team: i32,
    pub stackable: bool,
    pub value: i32,
}

pub open spec fn view_opt_str(o: Option<String>) -> Option<Seq<char>> {
    match o {
        Some(s) => Some(s@),
        None => None,
    }
}

pub open spec fn view_str5(a: [String; 5]) -> Seq<Seq<char>> {
    a@.map_values(|s: String| s@)
}

pub open spec fn view_opt_str5(o: Option<[String; 5]>) -> Option<Seq<Seq<char>>> {
    match o {
        Some(a) => Some(view_str5(a)),
        None => None,
    }
}

impl View for ItemDefinition {
    type V = ItemView;

    open spec fn view(&self) -> ItemView {
        ItemView {
            id: self.id,
            name: view_opt_str(self.name),
            description: view_opt_str(self.description),
            ground_actions: view_opt_str5(self.ground_actions),
            inventory_actions: view_opt_str5(self.inventory_actions),
            members: self.members,
            note_graphic_id: self.note_graphic_id,
            note_info_id: self.note_info_id,
            team: self.team,
            stackable: self.stackable,
            value: self.value,
        }
    }
}

fn opt_i32_eq(a: &Option<i32>, b: &Option<i32>) -> (r: bool)
    ensures
        r == (*a == *b),
{
    match (a, b) {
        (Some(x), Some(y)) => *x == *y,
        (None, None) => true,
        _ => false,
    }
}

fn opt_string_eq(a: &Option<String>, b: &Option<String>) -> (r: bool)
    ensures
        r == (view_opt_str(*a) == view_opt_str(*b)),
{
    match (a, b) {
        (Some(x), Some(y)) => {
            *x == *y
        },
        (None, None) => true,
        _ => false,
    }
}

fn str5_eq(a: &[String; 5], b: &[String; 5]) -> (r: bool)
    ensures
        r == (view_str5(*a) == view_str5(*b)),
{
    let mut i: usize = 0;
    while i < 5
        invariant
            i <= 5,
            forall|j: int| 0 <= j < i ==> view_str5(*a)[j] == view_str5(*b)[j],
        decreases 5 - i,
    {
        if !(a[i] == b[i]) {
            assert(view_str5(*a)[i as int] != view_str5(*b)[i as int]);
            return false;
        }
        i += 1;
    }
    proof {
        assert(view_str5(*a) =~= view_str5(*b));
    }
    true
}

fn opt_str5_eq(a: &Option<[String; 5]>, b: &Option<[String; 5]>) -> (r: bool)
    ensures
        r == (view_opt_str5(*a) == view_opt_str5(*b)),
{
    match (a, b) {
        (Some(x), Some(y)) => str5_eq(x, y),
        (None, None) => true,
        _ => false,
    }
}

/// Structural equality of two records: true exactly when the records are
/// the same entry, field by field.
pub fn item_eq(a: &ItemDefinition, b: &ItemDefinition) -> (r: bool)
    ensures
        r == (a@ == b@),
{
    let r = a.id == b.id && opt_string_eq(&a.name, &b.name)
        && opt_string_eq(&a.description, &b.description)
        && opt_str5_eq(&a.ground_actions, &b.ground_actions)
        && opt_str5_eq(&a.inventory_actions, &b.inventory_actions) && a.members == b.members
        && opt_i32_eq(&a.note_graphic_id, &b.note_graphic_id)
        && opt_i32_eq(&a.note_info_id, &b.note_info_id) && a.team == b.team
        && a.stackable == b.stackable && a.value == b.value;
    proof {
        if r {
            assert(a@ == b@);
        }
    }
    r
}

} // verus!
