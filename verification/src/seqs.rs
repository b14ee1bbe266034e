//! Two notions on sequences that the contracts of this crate share: the
//! first place where a condition holds, and a sequence with its repeats
//! taken out.

use vstd::prelude::*;

verus! {

/// The first place in `items` whose item meets `stop`; the length of `items`
/// where none does.
pub open spec fn first_at<T>(items: Seq<T>, stop: spec_fn(T) -> bool) -> int
    decreases items.len(),
{
    if items.len() == 0 || stop(items[0]) {
        0
    } else {
        1 + first_at(items.drop_first(), stop)
    }
}

/// No item before [`first_at`] meets the condition, and the item at it does,
/// unless it is the end.
pub proof fn first_at_is_first<T>(items: Seq<T>, stop: spec_fn(T) -> bool)
    ensures
        0 <= first_at(items, stop) <= items.len(),
        forall|i: int| 0 <= i < first_at(items, stop) ==> !stop(#[trigger] items[i]),
        first_at(items, stop) < items.len() ==> stop(items[first_at(items, stop)]),
    decreases items.len(),
{
    if items.len() == 0 || stop(items[0]) {
    } else {
        let rest = items.drop_first();
        first_at_is_first(rest, stop);
        assert forall|i: int| 0 <= i < first_at(items, stop) implies !stop(
            #[trigger] items[i],
        ) by {
            if i > 0 {
                assert(items[i] == rest[i - 1]);
            }
        }
    }
}

/// A place with no item before it that meets the condition, and with one at
/// it unless it is the end, is [`first_at`].
pub proof fn first_is_first_at<T>(items: Seq<T>, stop: spec_fn(T) -> bool, n: int)
    requires
        0 <= n <= items.len(),
        forall|i: int| 0 <= i < n ==> !stop(#[trigger] items[i]),
        n < items.len() ==> stop(items[n]),
    ensures
        first_at(items, stop) == n,
    decreases items.len(),
{
    if items.len() == 0 || stop(items[0]) {
    } else {
        let rest = items.drop_first();
        assert forall|i: int| 0 <= i < n - 1 implies !stop(#[trigger] rest[i]) by {
            assert(rest[i] == items[i + 1]);
        }
        first_is_first_at(rest, stop, n - 1);
    }
}

/// The items of `items` in the order in which each comes first, each once.
pub open spec fn distinct<T>(items: Seq<T>) -> Seq<T>
    decreases items.len(),
{
    if items.len() == 0 {
        items
    } else {
        let before = distinct(items.drop_last());
        if before.contains(items.last()) {
            before
        } else {
            before.push(items.last())
        }
    }
}

/// [`distinct`] holds exactly the items of the sequence it is taken from.
pub proof fn distinct_keeps_members<T>(items: Seq<T>)
    ensures
        forall|x: T| distinct(items).contains(x) <==> items.contains(x),
    decreases items.len(),
{
    if items.len() == 0 {
    } else {
        let front = items.drop_last();
        let before = distinct(front);
        distinct_keeps_members(front);
        assert forall|x: T| distinct(items).contains(x) <==> items.contains(x) by {
            if items.contains(x) {
                let i = choose|i: int| 0 <= i < items.len() && items[i] == x;
                if i < front.len() {
                    assert(front[i] == x);
                    assert(front.contains(x));
                    let j = choose|j: int| 0 <= j < before.len() && before[j] == x;
                    assert(distinct(items)[j] == x);
                } else {
                    assert(x == items.last());
                    if !before.contains(x) {
                        assert(distinct(items)[before.len() as int] == x);
                    }
                }
            }
            if distinct(items).contains(x) {
                let j = choose|j: int| 0 <= j < distinct(items).len() && distinct(items)[j] == x;
                if j < before.len() {
                    assert(before[j] == x);
                    assert(front.contains(x));
                    let i = choose|i: int| 0 <= i < front.len() && front[i] == x;
                    assert(items[i] == x);
                } else {
                    assert(items[items.len() - 1] == x);
                }
            }
        }
    }
}

/// [`distinct`] holds no item twice.
pub proof fn distinct_has_no_duplicates<T>(items: Seq<T>)
    ensures
        distinct(items).no_duplicates(),
    decreases items.len(),
{
    if items.len() > 0 {
        distinct_has_no_duplicates(items.drop_last());
    }
}

/// [`distinct`] starts with the item that the sequence starts with.
pub proof fn distinct_keeps_first<T>(items: Seq<T>)
    requires
        items.len() > 0,
    ensures
        distinct(items).len() > 0,
        distinct(items)[0] == items[0],
    decreases items.len(),
{
    let front = items.drop_last();
    if items.len() > 1 {
        distinct_keeps_first(front);
        assert(front[0] == items[0]);
    } else {
        assert(distinct(front).len() == 0);
    }
}

/// The place at which `x` first stands in `items`; the length of `items`
/// where it stands nowhere.
pub open spec fn first_place<T>(items: Seq<T>, x: T) -> int {
    first_at(items, |item: T| item == x)
}

/// An item of a sequence stands at its first place; any other value has the
/// length for its place.
pub proof fn first_place_of_member<T>(items: Seq<T>, x: T)
    ensures
        0 <= first_place(items, x) <= items.len(),
        items.contains(x) <==> first_place(items, x) < items.len(),
        items.contains(x) ==> items[first_place(items, x)] == x,
{
    first_at_is_first(items, |item: T| item == x);
    if items.contains(x) {
        let i = choose|i: int| 0 <= i < items.len() && items[i] == x;
        assert(first_place(items, x) <= i);
    }
}

/// An item added at the end leaves the first place of every item that was
/// there before, and itself comes first at the end if it was not.
pub proof fn first_place_after_push<T>(front: Seq<T>, last: T, x: T)
    ensures
        front.contains(x) ==> first_place(front.push(last), x) == first_place(front, x),
        !front.contains(x) && last == x ==> first_place(front.push(last), x) == front.len(),
{
    let all = front.push(last);
    let is_x = |item: T| item == x;
    first_place_of_member(front, x);
    first_at_is_first(front, is_x);
    let n = first_place(front, x);
    assert forall|i: int| 0 <= i < n implies !is_x(#[trigger] all[i]) by {
        assert(all[i] == front[i]);
    }
    if front.contains(x) {
        assert(all[n] == front[n]);
        first_is_first_at(all, is_x, n);
    } else if last == x {
        assert(all[n] == last);
        first_is_first_at(all, is_x, n);
    }
}

/// [`distinct`] keeps the order in which the items first come: of two items,
/// the one that comes first in the sequence comes first in its [`distinct`].
pub proof fn distinct_keeps_order<T>(items: Seq<T>, x: T, y: T)
    requires
        items.contains(x),
        items.contains(y),
        first_place(items, x) < first_place(items, y),
    ensures
        first_place(distinct(items), x) < first_place(distinct(items), y),
    decreases items.len(),
{
    let front = items.drop_last();
    let last = items.last();
    let before = distinct(front);
    assert(front.push(last) =~= items);
    distinct_keeps_members(front);
    first_place_after_push(front, last, x);
    first_place_after_push(front, last, y);
    first_place_of_member(front, x);
    first_place_of_member(front, y);
    first_place_of_member(items, x);
    first_place_of_member(items, y);
    assert(front.contains(x)) by {
        if !front.contains(x) {
            let i = choose|i: int| 0 <= i < items.len() && items[i] == x;
            if i < front.len() {
                assert(front[i] == x);
            }
            assert(x == last);
        }
    }
    assert(before.contains(x));
    first_place_of_member(before, x);
    first_place_after_push(before, last, x);
    first_place_after_push(before, last, y);
    if front.contains(y) {
        assert(before.contains(y));
        distinct_keeps_order(front, x, y);
    } else {
        let i = choose|i: int| 0 <= i < items.len() && items[i] == y;
        if i < front.len() {
            assert(front[i] == y);
        }
        assert(y == last);
        assert(!before.contains(y));
    }
}

/// A sequence that holds no item twice is its own [`distinct`].
pub proof fn distinct_is_identity<T>(items: Seq<T>)
    requires
        items.no_duplicates(),
    ensures
        distinct(items) == items,
    decreases items.len(),
{
    if items.len() > 0 {
        let front = items.drop_last();
        distinct_is_identity(front);
        if front.contains(items.last()) {
            let i = choose|i: int| 0 <= i < front.len() && front[i] == items.last();
            assert(items[i] == items[items.len() - 1]);
        }
        assert(front.push(items.last()) =~= items);
    }
}

/// Taking [`distinct`] a second time changes nothing.
pub proof fn distinct_of_distinct<T>(items: Seq<T>)
    ensures
        distinct(distinct(items)) == distinct(items),
{
    distinct_has_no_duplicates(items);
    distinct_is_identity(distinct(items));
}

} // verus!
