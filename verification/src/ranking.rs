//! Lists in order: comparing texts, and sorting what can be compared.
use crate::text::characters;
use vstd::prelude::*;

verus! {

/// Whether one text stands before another in a dictionary of characters.
pub open spec fn text_before(a: Seq<char>, b: Seq<char>) -> bool
    decreases a.len(),
{
    if b.len() == 0 {
        false
    } else if a.len() == 0 {
        true
    } else if a[0] != b[0] {
        a[0] < b[0]
    } else {
        text_before(a.skip(1), b.skip(1))
    }
}

/// Decides whether one text stands before another.
pub fn is_text_before(a: &str, b: &str) -> (r: bool)
    ensures
        r == text_before(a@, b@),
{
    let left = characters(a);
    let right = characters(b);
    let mut i: usize = 0;
    assert(left@.skip(0) =~= left@ && right@.skip(0) =~= right@);
    while i < left.len() && i < right.len()
        invariant
            left@ == a@,
            right@ == b@,
            i <= left@.len(),
            i <= right@.len(),
            text_before(a@, b@) == text_before(left@.skip(i as int), right@.skip(i as int)),
        decreases left@.len() - i,
    {
        assert(left@.skip(i as int).skip(1) =~= left@.skip(i + 1));
        assert(right@.skip(i as int).skip(1) =~= right@.skip(i + 1));
        if left[i] != right[i] {
            return left[i] < right[i];
        }
        i = i + 1;
    }
    i < right.len()
}

/// Of two texts that differ one stands before the other, and none before itself.
pub proof fn texts_are_ordered(a: Seq<char>, b: Seq<char>)
    ensures
        a == b ==> !text_before(a, b),
        a != b ==> text_before(a, b) != text_before(b, a),
    decreases a.len(),
{
    if a.len() > 0 && b.len() > 0 {
        texts_are_ordered(a.skip(1), b.skip(1));
        if a[0] == b[0] && a.skip(1) == b.skip(1) {
            assert(a =~= seq![a[0]] + a.skip(1));
            assert(b =~= seq![b[0]] + b.skip(1));
        }
    } else if a.len() == 0 && b.len() == 0 {
        assert(a =~= b);
    }
}

/// What stands before a text that stands before another stands before that one too.
pub proof fn text_order_is_transitive(a: Seq<char>, b: Seq<char>, c: Seq<char>)
    requires
        !text_before(b, a),
        !text_before(c, b),
    ensures
        !text_before(c, a),
    decreases a.len(),
{
    if a.len() > 0 && b.len() > 0 && c.len() > 0 {
        if a[0] == b[0] && b[0] == c[0] {
            text_order_is_transitive(a.skip(1), b.skip(1), c.skip(1));
        }
    }
}

/// Things that can be brought into order.
pub trait Ranked: View + Sized {
    /// Whether one thing has to stand before another.
    spec fn goes_before(a: Self::V, b: Self::V) -> bool;

    /// What need not stand behind another need not stand behind what follows it.
    proof fn order_is_transitive(a: Self::V, b: Self::V, c: Self::V)
        requires
            !Self::goes_before(b, a),
            !Self::goes_before(c, b),
        ensures
            !Self::goes_before(c, a),
    ;

    /// Of two things at most one has to stand before the other.
    proof fn order_is_one_way(a: Self::V, b: Self::V)
        ensures
            !(Self::goes_before(a, b) && Self::goes_before(b, a)),
    ;

    /// Decides whether this has to stand before another.
    fn is_before(&self, other: &Self) -> (r: bool)
        ensures
            r == Self::goes_before(self@, other@),
    ;
}

/// What a list holds.
pub open spec fn views<T: View>(list: Seq<T>) -> Seq<T::V> {
    list.map_values(|item: T| item@)
}

/// A list with one more thing in its place, behind those that it need not stand before.
pub open spec fn placed<T: Ranked>(list: Seq<T::V>, item: T::V) -> Seq<T::V>
    decreases list.len(),
{
    if list.len() > 0 && T::goes_before(item, list.last()) {
        placed::<T>(list.drop_last(), item).push(list.last())
    } else {
        list.push(item)
    }
}

/// A list brought into order; things that need not be told apart keep their order.
pub open spec fn ranked<T: Ranked>(list: Seq<T::V>) -> Seq<T::V>
    decreases list.len(),
{
    if list.len() == 0 {
        Seq::empty()
    } else {
        placed::<T>(ranked::<T>(list.drop_last()), list.last())
    }
}

/// Puts one more thing in its place.
fn place<T: Ranked>(list: &mut Vec<T>, item: T)
    ensures
        views(final(list)@) == placed::<T>(views(old(list)@), item@),
{
    let ghost before = views(list@);
    let mut at: usize = list.len();
    assert(before.take(at as int) =~= before);
    assert(before.skip(at as int) =~= Seq::empty());
    assert(placed::<T>(before, item@) =~= placed::<T>(before.take(at as int), item@) + before.skip(
        at as int,
    ));
    while at > 0 && item.is_before(&list[at - 1])
        invariant
            at <= list@.len(),
            *list == *old(list),
            before == views(list@),
            placed::<T>(before, item@) == placed::<T>(before.take(at as int), item@) + before.skip(
                at as int,
            ),
        decreases at,
    {
        let ghost head = before.take(at as int);
        assert(head.last() == list@[at - 1]@);
        assert(head.drop_last() =~= before.take(at - 1));
        assert(before.skip(at - 1) =~= seq![head.last()] + before.skip(at as int));
        assert(placed::<T>(head, item@) + before.skip(at as int) =~= placed::<T>(
            before.take(at - 1),
            item@,
        ) + before.skip(at - 1));
        at = at - 1;
    }
    assert(at > 0 ==> before.take(at as int).last() == list@[at - 1]@);
    list.insert(at, item);
    assert(views(list@) =~= before.take(at as int).push(item@) + before.skip(at as int));
}

/// Brings a list into order.
pub fn rank<T: Ranked>(list: Vec<T>) -> (r: Vec<T>)
    ensures
        views(r@) == ranked::<T>(views(list@)),
{
    let mut rest = list;
    let mut backwards: Vec<T> = Vec::new();
    let ghost all = list@;
    while rest.len() > 0
        invariant
            rest@ == all.take(rest@.len() as int),
            rest@.len() <= all.len(),
            backwards@ == all.reverse().take(all.len() - rest@.len()),
        decreases rest@.len(),
    {
        let ghost left = rest@.len();
        if let Some(item) = rest.pop() {
            backwards.push(item);
            assert(rest@ =~= all.take(left - 1));
            assert(backwards@ =~= all.reverse().take(all.len() - left + 1));
        }
    }
    assert(backwards@ =~= all.reverse());
    let mut r: Vec<T> = Vec::new();
    let ghost items = views(all);
    assert(views(r@) =~= ranked::<T>(items.take(0)));
    while backwards.len() > 0
        invariant
            backwards@ == all.reverse().take(backwards@.len() as int),
            backwards@.len() <= all.len(),
            items == views(all),
            views(r@) == ranked::<T>(items.take(all.len() - backwards@.len())),
        decreases backwards@.len(),
    {
        let ghost left = backwards@.len();
        let ghost count = all.len() - left;
        if let Some(item) = backwards.pop() {
            assert(item == all[count]);
            assert(backwards@ =~= all.reverse().take(left - 1));
            assert(items.take(count + 1).drop_last() =~= items.take(count));
            assert(items.take(count + 1).last() == item@);
            place(&mut r, item);
        }
    }
    assert(items.take(all.len() as int) =~= items);
    r
}

/// Whether nothing in a list has to stand before something that stands before it.
pub open spec fn in_order<T: Ranked>(list: Seq<T::V>) -> bool {
    forall|i: int, j: int|
        0 <= i < j < list.len() ==> !T::goes_before(#[trigger] list[j], #[trigger] list[i])
}

/// Bringing a list into order keeps exactly what is in it, in order.
pub proof fn ranking_sorts<T: Ranked>(list: Seq<T::V>)
    ensures
        in_order::<T>(ranked::<T>(list)),
        ranked::<T>(list).to_multiset() == list.to_multiset(),
        ranked::<T>(list).len() == list.len(),
    decreases list.len(),
{
    if list.len() > 0 {
        ranking_sorts::<T>(list.drop_last());
        placing_keeps_order::<T>(ranked::<T>(list.drop_last()), list.last());
        assert(list.drop_last().push(list.last()) =~= list);
        vstd::seq_lib::to_multiset_build(list.drop_last(), list.last());
    } else {
        assert(list =~= Seq::empty());
    }
}

proof fn placing_keeps_order<T: Ranked>(list: Seq<T::V>, item: T::V)
    requires
        in_order::<T>(list),
    ensures
        in_order::<T>(placed::<T>(list, item)),
        placed::<T>(list, item).to_multiset() == list.to_multiset().insert(item),
        placed::<T>(list, item).len() == list.len() + 1,
    decreases list.len(),
{
    let after = placed::<T>(list, item);
    if list.len() > 0 && T::goes_before(item, list.last()) {
        let front = list.drop_last();
        let last = list.last();
        assert(in_order::<T>(front)) by {
            assert forall|i: int, j: int| 0 <= i < j < front.len() implies !T::goes_before(
                #[trigger] front[j],
                #[trigger] front[i],
            ) by {
                assert(front[j] == list[j] && front[i] == list[i]);
            }
        }
        placing_keeps_order::<T>(front, item);
        let head = placed::<T>(front, item);
        vstd::seq_lib::to_multiset_build(head, last);
        vstd::seq_lib::to_multiset_build(front, last);
        assert(front.push(last) =~= list);
        assert(after.to_multiset() =~= list.to_multiset().insert(item));
        T::order_is_one_way(item, last);
        assert forall|i: int, j: int| 0 <= i < j < after.len() implies !T::goes_before(
            #[trigger] after[j],
            #[trigger] after[i],
        ) by {
            if j == after.len() - 1 {
                assert(after[i] == head[i]);
                placed_members::<T>(front, item, i);
                if head[i] != item {
                    let k = choose|k: int| 0 <= k < front.len() && #[trigger] front[k] == head[i];
                    assert(front[k] == list[k]);
                    assert(last == list[list.len() - 1]);
                }
            } else {
                assert(after[i] == head[i] && after[j] == head[j]);
            }
        }
    } else {
        vstd::seq_lib::to_multiset_build(list, item);
        assert forall|i: int, j: int| 0 <= i < j < after.len() implies !T::goes_before(
            #[trigger] after[j],
            #[trigger] after[i],
        ) by {
            if j == after.len() - 1 {
                if i < list.len() - 1 {
                    assert(!T::goes_before(list[list.len() - 1], list[i]));
                    T::order_is_transitive(list[i], list.last(), item);
                }
            } else {
                assert(after[i] == list[i] && after[j] == list[j]);
            }
        }
    }
}

proof fn placed_members<T: Ranked>(list: Seq<T::V>, item: T::V, i: int)
    requires
        0 <= i < placed::<T>(list, item).len(),
    ensures
        placed::<T>(list, item).len() == list.len() + 1,
        placed::<T>(list, item)[i] == item || exists|k: int|
            0 <= k < list.len() && #[trigger] list[k] == placed::<T>(list, item)[i],
    decreases list.len(),
{
    let after = placed::<T>(list, item);
    if list.len() > 0 && T::goes_before(item, list.last()) {
        let front = list.drop_last();
        let head = placed::<T>(front, item);
        if i < head.len() {
            placed_members::<T>(front, item, i);
            if head[i] != item {
                let k = choose|k: int| 0 <= k < front.len() && #[trigger] front[k] == head[i];
                assert(list[k] == after[i]);
            }
        } else {
            assert(list[list.len() - 1] == after[i]);
        }
        if head.len() > 0 {
            placed_members::<T>(front, item, 0);
        }
    } else {
        if i < list.len() {
            assert(list[i] == after[i]);
        }
    }
}

} // verus!
