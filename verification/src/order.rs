//! The order in which the levels of an exam are taken: by the number that the
//! folder's name denotes, names that denote no number after all that do, and
//! equal ranks by the name itself.

use vstd::prelude::*;
use crate::names::names_of;
use crate::numeral::{is_numeral, number_rank, spec_level_number, Rank};

verus! {

/// Whether `a` is at or before `b` in dictionary order by code point, the
/// characters before position `from` being the same in both.
pub open spec fn name_le_from(a: Seq<char>, b: Seq<char>, from: int) -> bool
    decreases a.len() - from,
{
    if from >= a.len() {
        true
    } else if from >= b.len() {
        false
    } else if a[from] == b[from] {
        name_le_from(a, b, from + 1)
    } else {
        a[from] < b[from]
    }
}

/// Whether `a` is at or before `b` in dictionary order by code point.
pub open spec fn name_le(a: Seq<char>, b: Seq<char>) -> bool {
    name_le_from(a, b, 0)
}

/// Whether the level folder `a` is taken at or before the level folder `b`.
pub open spec fn level_le(a: Seq<char>, b: Seq<char>) -> bool {
    match (spec_level_number(a), spec_level_number(b)) {
        (Some(x), Some(y)) => x < y || (x == y && name_le(a, b)),
        (Some(_), None) => true,
        (None, Some(_)) => false,
        (None, None) => name_le(a, b),
    }
}

/// Whether `names` is in level order.
pub open spec fn in_level_order(names: Seq<Seq<char>>) -> bool {
    forall|i: int, j: int|
        0 <= i <= j < names.len() ==> level_le(#[trigger] names[i], #[trigger] names[j])
}

proof fn lemma_name_le_from_total(a: Seq<char>, b: Seq<char>, from: int)
    requires
        0 <= from,
    ensures
        name_le_from(a, b, from) || name_le_from(b, a, from),
    decreases a.len() - from,
{
    if from < a.len() && from < b.len() && a[from] == b[from] {
        lemma_name_le_from_total(a, b, from + 1);
    }
}

proof fn lemma_name_le_from_transitive(a: Seq<char>, b: Seq<char>, c: Seq<char>, from: int)
    requires
        0 <= from,
        name_le_from(a, b, from),
        name_le_from(b, c, from),
    ensures
        name_le_from(a, c, from),
    decreases a.len() - from,
{
    if from < a.len() && from < b.len() && from < c.len() && a[from] == b[from] && b[from]
        == c[from] {
        lemma_name_le_from_transitive(a, b, c, from + 1);
    }
}

proof fn lemma_name_le_from_antisymmetric(a: Seq<char>, b: Seq<char>, from: int)
    requires
        0 <= from <= a.len(),
        from <= b.len(),
        a.take(from) == b.take(from),
        name_le_from(a, b, from),
        name_le_from(b, a, from),
    ensures
        a == b,
    decreases a.len() - from,
{
    if from >= a.len() {
        assert(b.take(from) =~= b);
    } else {
        assert(a.take(from + 1) =~= a.take(from).push(a[from]));
        assert(b.take(from + 1) =~= b.take(from).push(b[from]));
        lemma_name_le_from_antisymmetric(a, b, from + 1);
    }
}

/// Of two names, one is at or before the other.
pub proof fn lemma_name_le_total(a: Seq<char>, b: Seq<char>)
    ensures
        name_le(a, b) || name_le(b, a),
{
    lemma_name_le_from_total(a, b, 0);
}

/// Dictionary order is transitive.
pub proof fn lemma_name_le_transitive(a: Seq<char>, b: Seq<char>, c: Seq<char>)
    requires
        name_le(a, b),
        name_le(b, c),
    ensures
        name_le(a, c),
{
    lemma_name_le_from_transitive(a, b, c, 0);
}

/// Two names that are each at or before the other are the same name.
pub proof fn lemma_name_le_antisymmetric(a: Seq<char>, b: Seq<char>)
    requires
        name_le(a, b),
        name_le(b, a),
    ensures
        a == b,
{
    assert(a.take(0) =~= b.take(0));
    lemma_name_le_from_antisymmetric(a, b, 0);
}

/// Of two level folders, one is taken at or before the other.
pub proof fn lemma_level_le_total(a: Seq<char>, b: Seq<char>)
    ensures
        level_le(a, b) || level_le(b, a),
{
    lemma_name_le_total(a, b);
}

/// Level order is transitive.
pub proof fn lemma_level_le_transitive(a: Seq<char>, b: Seq<char>, c: Seq<char>)
    requires
        level_le(a, b),
        level_le(b, c),
    ensures
        level_le(a, c),
{
    if name_le(a, b) && name_le(b, c) {
        lemma_name_le_transitive(a, b, c);
    }
}

/// Two level folders that are each taken at or before the other have the
/// same name.
pub proof fn lemma_level_le_antisymmetric(a: Seq<char>, b: Seq<char>)
    requires
        level_le(a, b),
        level_le(b, a),
    ensures
        a == b,
{
    lemma_name_le_antisymmetric(a, b);
}

/// A folder whose name denotes a number is taken before every folder whose
/// name denotes none, and never after one.
pub proof fn lemma_numbered_before_unnumbered(a: Seq<char>, b: Seq<char>)
    requires
        spec_level_number(a) is Some,
        spec_level_number(b) is None,
    ensures
        level_le(a, b),
        !level_le(b, a),
{
}

/// Whether `a` is at or before `b` in dictionary order by code point.
pub fn name_at_or_before(a: &str, b: &str) -> (le: bool)
    ensures
        le == name_le(a@, b@),
{
    let a_len: usize = a.unicode_len();
    let b_len: usize = b.unicode_len();
    let mut i: usize = 0;
    while i < a_len
        invariant
            i <= a_len,
            a_len == a@.len(),
            b_len == b@.len(),
            name_le(a@, b@) == name_le_from(a@, b@, i as int),
        decreases a_len - i,
    {
        if i >= b_len {
            return false;
        }
        let x: char = a.get_char(i);
        let y: char = b.get_char(i);
        if x != y {
            return x < y;
        }
        i = i + 1;
    }
    true
}

/// Whether the level folder `a` is taken at or before the level folder `b`.
pub fn level_at_or_before(a: &str, b: &str) -> (le: bool)
    ensures
        le == level_le(a@, b@),
{
    match number_rank(a, b) {
        Some(Rank::Lower) => true,
        Some(Rank::Same) => name_at_or_before(a, b),
        Some(Rank::Higher) => false,
        None => if is_numeral(a) {
            true
        } else if is_numeral(b) {
            false
        } else {
            name_at_or_before(a, b)
        },
    }
}

/// In a list that is in level order, a folder whose name denotes a number
/// stands before every folder whose name denotes none.
pub proof fn lemma_order_puts_numbered_first(names: Seq<Seq<char>>, i: int, j: int)
    requires
        in_level_order(names),
        0 <= i < names.len(),
        0 <= j < names.len(),
        spec_level_number(names[i]) is Some,
        spec_level_number(names[j]) is None,
    ensures
        i < j,
{
}

/// Two lists in level order that hold the same names, each as often as the
/// other, are the same list.
pub proof fn lemma_level_order_is_unique(a: Seq<Seq<char>>, b: Seq<Seq<char>>)
    requires
        in_level_order(a),
        in_level_order(b),
        a.to_multiset() == b.to_multiset(),
    ensures
        a == b,
    decreases a.len(),
{
    broadcast use vstd::seq_lib::group_to_multiset_ensures;

    a.to_multiset_ensures();
    b.to_multiset_ensures();
    if a.len() > 0 {
        let x = a[0];
        let y = b[0];
        assert(b.contains(x)) by {
            assert(a.to_multiset().count(x) > 0);
        }
        assert(a.contains(y)) by {
            assert(b.to_multiset().count(y) > 0);
        }
        lemma_level_le_antisymmetric(x, y);
        let a_rest = a.remove(0);
        let b_rest = b.remove(0);
        assert(in_level_order(a_rest));
        assert(in_level_order(b_rest));
        lemma_level_order_is_unique(a_rest, b_rest);
        assert(b =~= seq![y] + b_rest);
    }
}

/// Puts `name` into `sorted` at the place that level order gives it: behind
/// the names that are at or before it, before the others.
fn insert_in_level_order(sorted: &mut Vec<String>, name: String)
    requires
        in_level_order(names_of(old(sorted)@)),
    ensures
        in_level_order(names_of(final(sorted)@)),
        names_of(final(sorted)@).to_multiset() == names_of(old(sorted)@).to_multiset().insert(
            name@,
        ),
        final(sorted).len() == old(sorted).len() + 1,
{
    let ghost before = names_of(sorted@);
    let mut place: usize = 0;
    while place < sorted.len() && level_at_or_before(sorted[place].as_str(), name.as_str())
        invariant
            place <= sorted.len(),
            sorted@ == old(sorted)@,
            before == names_of(sorted@),
            forall|k: int| 0 <= k < place ==> level_le(#[trigger] before[k], name@),
        decreases sorted.len() - place,
    {
        place = place + 1;
    }
    proof {
        if place < sorted.len() {
            lemma_level_le_total(before[place as int], name@);
            assert forall|k: int| place <= k < before.len() implies level_le(
                name@,
                #[trigger] before[k],
            ) by {
                lemma_level_le_transitive(name@, before[place as int], before[k]);
            }
        }
    }
    sorted.insert(place, name);
    proof {
        let after = names_of(sorted@);
        assert(after =~= before.insert(place as int, name@));
        vstd::seq_lib::to_multiset_insert(before, place as int, name@);
        assert forall|i: int, j: int| 0 <= i <= j < after.len() implies level_le(
            #[trigger] after[i],
            #[trigger] after[j],
        ) by {
            if i == j {
                lemma_level_le_total(after[i], after[j]);
            }
        }
    }
}

/// The level folders `names` in the order in which the levels are taken.
///
/// The result holds the same names, each as often as `names` does, in level
/// order: there is one such list only.
pub fn sort_levels(names: &Vec<String>) -> (sorted: Vec<String>)
    ensures
        in_level_order(names_of(sorted@)),
        names_of(sorted@).to_multiset() == names_of(names@).to_multiset(),
        sorted.len() == names.len(),
{
    let mut sorted: Vec<String> = Vec::new();
    let mut i: usize = 0;
    assert(names_of(names@.take(0)) =~= names_of(sorted@));
    while i < names.len()
        invariant
            i <= names.len(),
            sorted.len() == i,
            in_level_order(names_of(sorted@)),
            names_of(sorted@).to_multiset() == names_of(names@.take(i as int)).to_multiset(),
        decreases names.len() - i,
    {
        let name: String = names[i].clone();
        proof {
            let done = names_of(names@.take(i as int));
            assert(names_of(names@.take(i + 1)) =~= done.push(name@));
            vstd::seq_lib::to_multiset_build(done, name@);
        }
        insert_in_level_order(&mut sorted, name);
        i = i + 1;
    }
    assert(names@.take(i as int) =~= names@);
    sorted
}

} // verus!
