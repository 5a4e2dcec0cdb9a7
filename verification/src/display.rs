//! Display names for a snapshot of sessions.
//!
//! A process name that occurs once is shown as it is. One that occurs several
//! times is shown with a number behind it, `"<name> (<n>)"`, where `n` counts
//! the sessions of that name from 1 in the order of the snapshot.

use crate::text::{decimal, lemma_decimal_is_injective, push_decimal, texts};
use vstd::prelude::*;

verus! {

/// How many of `names` are `name`.
pub open spec fn occurrences(names: Seq<Seq<char>>, name: Seq<char>) -> nat
    decreases names.len(),
{
    if names.len() == 0 {
        0
    } else {
        occurrences(names.drop_last(), name) + if names.last() == name {
            1nat
        } else {
            0nat
        }
    }
}

/// A name with the number `n` behind it: `"<name> (<n>)"`.
pub open spec fn numbered_name(name: Seq<char>, n: nat) -> Seq<char> {
    name + seq![' ', '('] + decimal(n) + seq![')']
}

/// The display name of the session at `i`: its name if no other session has
/// it, else its name with its rank among the sessions of that name.
pub open spec fn display_name(names: Seq<Seq<char>>, i: int) -> Seq<char> {
    if occurrences(names, names[i]) > 1 {
        numbered_name(names[i], occurrences(names.take(i + 1), names[i]))
    } else {
        names[i]
    }
}

/// Counts how many of the first `upto` names are `name`.
fn count_in_prefix(names: &Vec<String>, upto: usize, name: &String) -> (n: usize)
    requires
        upto <= names@.len(),
    ensures
        n == occurrences(texts(names@).take(upto as int), name@),
        n <= upto,
{
    let mut n: usize = 0;
    let mut i: usize = 0;
    while i < upto
        invariant
            i <= upto <= names@.len(),
            n <= i,
            n == occurrences(texts(names@).take(i as int), name@),
        decreases upto - i,
    {
        proof {
            let read = texts(names@).take(i + 1);
            assert(read.drop_last() == texts(names@).take(i as int));
            assert(read.last() == names@[i as int]@);
        }
        if names[i] == *name {
            n += 1;
        }
        i += 1;
    }
    n
}

/// Computes the display name of every session from the process names of a
/// snapshot, in the order of the snapshot.
pub fn display_names(names: &Vec<String>) -> (shown: Vec<String>)
    ensures
        shown@.len() == names@.len(),
        forall|i: int|
            0 <= i < names@.len() ==> (#[trigger] shown@[i])@ == display_name(texts(names@), i),
{
    let mut shown: Vec<String> = Vec::new();
    let mut i: usize = 0;
    while i < names.len()
        invariant
            i <= names@.len(),
            shown@.len() == i,
            forall|j: int| 0 <= j < i ==> (#[trigger] shown@[j])@ == display_name(texts(names@), j),
        decreases names@.len() - i,
    {
        proof {
            assert(texts(names@).take(names@.len() as int) == texts(names@));
        }
        let total = count_in_prefix(names, names.len(), &names[i]);
        let mut name = names[i].clone();
        if total > 1 {
            let rank = count_in_prefix(names, i + 1, &names[i]);
            name.push(' ');
            name.push('(');
            push_decimal(&mut name, rank as u64);
            name.push(')');
        }
        shown.push(name);
        i += 1;
    }
    shown
}

/// A name that is counted at least once is among the names.
pub proof fn lemma_counted_name_occurs(names: Seq<Seq<char>>, name: Seq<char>)
    requires
        occurrences(names, name) > 0,
    ensures
        exists|i: int| 0 <= i < names.len() && #[trigger] names[i] == name,
    decreases names.len(),
{
    if names.last() == name {
        assert(names[names.len() - 1] == name);
    } else {
        lemma_counted_name_occurs(names.drop_last(), name);
        let i = choose|i: int| 0 <= i < names.len() - 1 && #[trigger] names.drop_last()[i] == name;
        assert(names[i] == name);
    }
}

/// A name that is counted more than once stands at two places.
pub proof fn lemma_repeated_name_occurs_twice(names: Seq<Seq<char>>, name: Seq<char>)
    requires
        occurrences(names, name) > 1,
    ensures
        exists|i: int, j: int|
            0 <= i < j < names.len() && #[trigger] names[i] == name && #[trigger] names[j] == name,
    decreases names.len(),
{
    if names.last() == name {
        lemma_counted_name_occurs(names.drop_last(), name);
        let i = choose|i: int| 0 <= i < names.len() - 1 && #[trigger] names.drop_last()[i] == name;
        assert(names[i] == name && names[names.len() - 1] == name);
    } else {
        lemma_repeated_name_occurs_twice(names.drop_last(), name);
        let (i, j) = choose|i: int, j: int|
            0 <= i < j < names.len() - 1 && #[trigger] names.drop_last()[i] == name
                && #[trigger] names.drop_last()[j] == name;
        assert(names[i] == name && names[j] == name);
    }
}

/// Reading further never lowers a count.
pub proof fn lemma_occurrences_grow(names: Seq<Seq<char>>, name: Seq<char>, i: int, j: int)
    requires
        0 <= i <= j <= names.len(),
    ensures
        occurrences(names.take(i), name) <= occurrences(names.take(j), name),
    decreases j - i,
{
    if i < j {
        lemma_occurrences_grow(names, name, i, j - 1);
        assert(names.take(j).drop_last() == names.take(j - 1));
    }
}

/// The number behind a name tells numbered names of one name apart.
pub proof fn lemma_numbered_name_is_injective(name: Seq<char>, a: nat, b: nat)
    requires
        numbered_name(name, a) == numbered_name(name, b),
    ensures
        a == b,
{
    let left = numbered_name(name, a);
    let right = numbered_name(name, b);
    let start = name.len() + 2;
    assert(left.len() == start + decimal(a).len() + 1);
    assert(right.len() == start + decimal(b).len() + 1);
    assert forall|k: int| 0 <= k < decimal(a).len() implies decimal(a)[k] == decimal(b)[k] by {
        assert(left[start + k] == decimal(a)[k]);
        assert(right[start + k] == decimal(b)[k]);
    }
    assert(decimal(a) =~= decimal(b));
    lemma_decimal_is_injective(a, b);
}

/// Names that are all different are displayed as they are.
pub proof fn lemma_unique_names_are_shown_as_given(names: Seq<Seq<char>>, i: int)
    requires
        0 <= i < names.len(),
        forall|a: int, b: int| 0 <= a < b < names.len() ==> names[a] != names[b],
    ensures
        display_name(names, i) == names[i],
{
    if occurrences(names, names[i]) > 1 {
        lemma_repeated_name_occurs_twice(names, names[i]);
    }
}

/// Two sessions of one process name never share a display name: both are
/// numbered, the earlier one lower.
pub proof fn lemma_same_name_is_told_apart(names: Seq<Seq<char>>, i: int, j: int)
    requires
        0 <= i < j < names.len(),
        names[i] == names[j],
    ensures
        display_name(names, i) == numbered_name(names[i], occurrences(names.take(i + 1), names[i])),
        display_name(names, j) == numbered_name(names[i], occurrences(names.take(j + 1), names[i])),
        1 <= occurrences(names.take(i + 1), names[i]) < occurrences(names.take(j + 1), names[i]),
        display_name(names, i) != display_name(names, j),
{
    let name = names[i];
    let rank_i = occurrences(names.take(i + 1), name);
    let rank_j = occurrences(names.take(j + 1), name);
    assert(names.take(i + 1).drop_last() == names.take(i));
    assert(names.take(j + 1).drop_last() == names.take(j));
    assert(names.take(i + 1).last() == name);
    assert(names.take(j + 1).last() == name);
    lemma_occurrences_grow(names, name, i + 1, j);
    lemma_occurrences_grow(names, name, j + 1, names.len() as int);
    assert(names.take(names.len() as int) == names);
    if numbered_name(name, rank_i) == numbered_name(name, rank_j) {
        lemma_numbered_name_is_injective(name, rank_i, rank_j);
    }
}

} // verus!
