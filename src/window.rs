//! Choosing among the items a platform lists, such as its monitors.
use vstd::prelude::*;

verus! {

/// The first item after the first one that satisfies `predicate`; when
/// none does, the first item; `None` when there are no items. The first item
/// is never tested: it is the fallback.
pub fn find_or_first<T, F: Fn(&T) -> bool>(items: Vec<T>, predicate: F) -> (r: Option<T>)
    requires
        forall|x: &T| predicate.requires((x,)),
    ensures
        items@.len() == 0 ==> r is None,
        items@.len() > 0 ==> {
            ||| exists|i: int|
                #![trigger items@[i]]
                1 <= i < items@.len() && predicate.ensures((&items@[i],), true) && r == Some(items@[i])
                    && forall|j: int| 1 <= j < i ==> predicate.ensures((&items@[j],), false)
            ||| (forall|j: int| 1 <= j < items@.len() ==> predicate.ensures((&items@[j],), false))
                && r == Some(items@[0])
        },
{
    if items.len() == 0 {
        return None;
    }
    let mut items = items;
    let ghost all = items@;
    let mut found: usize = 0;
    let mut i: usize = 1;
    while i < items.len() && found == 0
        invariant
            items@ == all,
            1 <= i <= items@.len(),
            found == 0 ==> forall|j: int| 1 <= j < i ==> predicate.ensures((&items@[j],), false),
            found != 0 ==> {
                &&& 1 <= found < items@.len()
                &&& predicate.ensures((&items@[found as int],), true)
                &&& forall|j: int| 1 <= j < found ==> predicate.ensures((&items@[j],), false)
            },
            forall|x: &T| predicate.requires((x,)),
        decreases items@.len() - i,
    {
        if predicate(&items[i]) {
            found = i;
        }
        i = i + 1;
    }
    Some(items.swap_remove(found))
}

} // verus!
