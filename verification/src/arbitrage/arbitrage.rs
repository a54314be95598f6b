use vstd::prelude::*;

verus! {

/// The position of the first element of `list` on which `predicate` answers
/// `true`, or `None` when it answers `false` on every element. The predicate is
/// asked about the elements in order, up to and including the first match.
pub fn find_index<T, F>(list: &[T], predicate: F) -> (index: Option<usize>) where
    F: Fn(&T) -> bool,

    requires
        forall|i: int| 0 <= i < list@.len() ==> predicate.requires((&list@[i],)),
    ensures
        match index {
            Some(i) => {
                &&& i < list@.len()
                &&& predicate.ensures((&list@[i as int],), true)
                &&& forall|j: int| 0 <= j < i ==> predicate.ensures((&list@[j],), false)
            },
            None => forall|j: int| 0 <= j < list@.len() ==> predicate.ensures((&list@[j],), false),
        },
{
    let mut i: usize = 0;
    while i < list.len()
        invariant
            i <= list@.len(),
            forall|k: int| 0 <= k < list@.len() ==> predicate.requires((&list@[k],)),
            forall|j: int| 0 <= j < i ==> predicate.ensures((&list@[j],), false),
        decreases list@.len() - i,
    {
        let hit = predicate(&list[i]);
        if hit {
            return Some(i);
        }
        i = i + 1;
    }
    None
}

} // verus!
