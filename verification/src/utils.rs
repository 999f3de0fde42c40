//! Helpers on lists of strings.

use vstd::prelude::*;

verus! {

/// The views of a list of strings, in order.
pub open spec fn views(items: Seq<String>) -> Seq<Seq<char>> {
    items.map_values(|s: String| s@)
}

/// `items` without every value that already occurred earlier in it.
pub open spec fn distinct(items: Seq<Seq<char>>) -> Seq<Seq<char>>
    decreases items.len(),
{
    if items.len() == 0 {
        items
    } else {
        let head = distinct(items.drop_last());
        if head.contains(items.last()) {
            head
        } else {
            head.push(items.last())
        }
    }
}

/// What `distinct` keeps: every value of the list and no other, each of them
/// once.
pub proof fn lemma_distinct_keeps_each_once(items: Seq<Seq<char>>)
    ensures
        distinct(items).no_duplicates(),
        forall|value: Seq<char>| distinct(items).contains(value) <==> items.contains(value),
        distinct(items).len() <= items.len(),
    decreases items.len(),
{
    if items.len() > 0 {
        let front = items.drop_last();
        let last = items.last();
        lemma_distinct_keeps_each_once(front);
        let kept = distinct(front);
        assert forall|value: Seq<char>| distinct(items).contains(value) <==> items.contains(
            value,
        ) by {
            if items.contains(value) {
                let i = choose|i: int| 0 <= i < items.len() && items[i] == value;
                if i < items.len() - 1 {
                    assert(front[i] == value);
                    assert(front.contains(value));
                    assert(kept.contains(value));
                    if !kept.contains(last) {
                        let j = choose|j: int| 0 <= j < kept.len() && kept[j] == value;
                        assert(kept.push(last)[j] == value);
                    }
                } else {
                    assert(value == last);
                    if !kept.contains(last) {
                        assert(kept.push(last)[kept.len() as int] == last);
                    }
                }
            }
            if distinct(items).contains(value) {
                let j = choose|j: int| 0 <= j < distinct(items).len() && distinct(items)[j] == value;
                if kept.contains(last) || j < kept.len() {
                    assert(kept[j] == value);
                    assert(kept.contains(value));
                    assert(front.contains(value));
                    let i = choose|i: int| 0 <= i < front.len() && front[i] == value;
                    assert(items[i] == value);
                } else {
                    assert(value == last);
                    assert(items[items.len() - 1] == value);
                }
            }
        }
    }
}

/// The place of the first occurrence of a value in a list; the list's length
/// where the value does not occur.
pub open spec fn first_index(items: Seq<Seq<char>>, value: Seq<char>) -> int
    decreases items.len(),
{
    if items.len() == 0 {
        0
    } else if items.drop_last().contains(value) {
        first_index(items.drop_last(), value)
    } else {
        items.len() - 1
    }
}

/// `first_index` gives the first place at which a value occurs.
pub proof fn lemma_first_index(items: Seq<Seq<char>>, value: Seq<char>)
    requires
        items.contains(value),
    ensures
        0 <= first_index(items, value) < items.len(),
        items[first_index(items, value)] == value,
        forall|k: int| 0 <= k < first_index(items, value) ==> items[k] != value,
    decreases items.len(),
{
    let front = items.drop_last();
    if front.contains(value) {
        lemma_first_index(front, value);
        assert forall|k: int| 0 <= k < first_index(items, value) implies items[k] != value by {
            assert(front[k] == items[k]);
        }
    } else {
        let i = choose|i: int| 0 <= i < items.len() && items[i] == value;
        if i < items.len() - 1 {
            assert(front[i] == value);
        }
        assert forall|k: int| 0 <= k < items.len() - 1 implies items[k] != value by {
            if items[k] == value {
                assert(front[k] == value);
            }
        }
    }
}

/// `distinct` keeps the order of first occurrences: of two values that it
/// keeps, the one that it puts first also occurs first in the list.
pub proof fn lemma_distinct_keeps_order(items: Seq<Seq<char>>, i: int, j: int)
    requires
        0 <= i < j < distinct(items).len(),
    ensures
        first_index(items, distinct(items)[i]) < first_index(items, distinct(items)[j]),
        0 <= first_index(items, distinct(items)[i]),
        first_index(items, distinct(items)[j]) < items.len(),
    decreases items.len(),
{
    lemma_distinct_keeps_each_once(items);
    let front = items.drop_last();
    let last = items.last();
    let kept = distinct(front);
    lemma_distinct_keeps_each_once(front);
    let a = distinct(items)[i];
    let b = distinct(items)[j];
    assert(kept[i] == a);
    assert(kept.contains(a));
    assert(front.contains(a));
    lemma_first_index(front, a);
    lemma_first_index(items, a);
    lemma_first_index(items, b);
    assert(distinct(items).contains(b));
    if kept.contains(last) || j < kept.len() {
        assert(kept[j] == b);
        assert(kept.contains(b));
        lemma_first_index(front, b);
        lemma_distinct_keeps_order(front, i, j);
    } else {
        assert(b == last);
        assert(!front.contains(b));
    }
}

/// Whether `items` holds a string whose text is `needle`.
pub fn contains_text(items: &Vec<String>, needle: &String) -> (found: bool)
    ensures
        found == views(items@).contains(needle@),
{
    let mut i: usize = 0;
    while i < items.len()
        invariant
            i <= items.len(),
            forall|j: int| 0 <= j < i ==> views(items@)[j] != needle@,
        decreases items.len() - i,
    {
        if items[i] == *needle {
            assert(views(items@)[i as int] == needle@);
            return true;
        }
        i += 1;
    }
    false
}

/// Drops repeated values, keeping each value at the place of its first
/// occurrence.
pub fn remove_duplicates(items: Vec<String>) -> (kept: Vec<String>)
    ensures
        views(kept@) == distinct(views(items@)),
{
    let mut kept: Vec<String> = Vec::new();
    let mut i: usize = 0;
    assert(views(items@).take(0) =~= Seq::<Seq<char>>::empty());
    assert(views(kept@) =~= Seq::<Seq<char>>::empty());
    while i < items.len()
        invariant
            i <= items.len(),
            views(kept@) == distinct(views(items@).take(i as int)),
        decreases items.len() - i,
    {
        let ghost before = views(kept@);
        let ghost prefix = views(items@).take(i as int + 1);
        assert(prefix.drop_last() =~= views(items@).take(i as int));
        assert(prefix.last() == items@[i as int]@);
        if !contains_text(&kept, &items[i]) {
            kept.push(items[i].clone());
            assert(views(kept@) =~= before.push(items@[i as int]@));
        }
        i += 1;
    }
    assert(views(items@).take(i as int) =~= views(items@));
    kept
}

} // verus!
