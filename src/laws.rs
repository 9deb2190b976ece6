use vstd::prelude::*;

use crate::neighbors::near_of;

verus! {

/// The flock that results from appending `created` one agent at a time to
/// `start`, as `Universe::create_boid` does.
pub open spec fn after_creating<B>(start: Seq<B>, created: Seq<B>) -> Seq<B>
    decreases created.len(),
{
    if created.len() == 0 {
        start
    } else {
        after_creating(start, created.drop_last()).push(created.last())
    }
}

/// Creating agents one by one in an empty world gives a flock that holds
/// exactly them, each at the index of its turn: indices below the number of
/// agents created are filled in creation order, and that number itself is past
/// the end.
pub proof fn lemma_creation_order<B>(created: Seq<B>)
    ensures
        after_creating(Seq::<B>::empty(), created) == created,
        after_creating(Seq::<B>::empty(), created).len() == created.len(),
        forall|i: int|
            0 <= i < created.len() ==> #[trigger] after_creating(Seq::<B>::empty(), created)[i]
                == created[i],
    decreases created.len(),
{
    if created.len() > 0 {
        lemma_creation_order(created.drop_last());
        assert(created.drop_last().push(created.last()) == created);
    }
}

/// The neighbours of an agent are drawn from the flock it looks at: each one is
/// an agent of that flock that the neighbour test accepts, and there are never
/// more of them than agents in the flock.
pub proof fn lemma_near_accepted<B, F: Fn(&B) -> bool>(s: Seq<B>, is_near: F)
    ensures
        near_of(s, is_near).len() <= s.len(),
        forall|k: int|
            0 <= k < near_of(s, is_near).len() ==> s.contains(#[trigger] near_of(s, is_near)[k])
                && is_near.ensures((&near_of(s, is_near)[k],), true),
    decreases s.len(),
{
    if s.len() > 0 {
        let rest = s.drop_last();
        lemma_near_accepted(rest, is_near);
        assert forall|k: int| 0 <= k < near_of(s, is_near).len() implies s.contains(
            #[trigger] near_of(s, is_near)[k],
        ) && is_near.ensures((&near_of(s, is_near)[k],), true) by {
            if k < near_of(rest, is_near).len() {
                let b = near_of(rest, is_near)[k];
                let j = choose|j: int| 0 <= j < rest.len() && rest[j] == b;
                assert(s[j] == b);
            } else {
                assert(s[s.len() - 1] == s.last());
            }
        }
    }
}

/// With no agent that the neighbour test accepts (an empty flock, for one),
/// an agent has no neighbours.
pub proof fn lemma_no_neighbours<B, F: Fn(&B) -> bool>(s: Seq<B>, is_near: F)
    requires
        forall|k: int| 0 <= k < s.len() ==> !is_near.ensures((&#[trigger] s[k],), true),
    ensures
        near_of(s, is_near) == Seq::<B>::empty(),
    decreases s.len(),
{
    if s.len() > 0 {
        let rest = s.drop_last();
        assert forall|k: int| 0 <= k < rest.len() implies !is_near.ensures(
            (&#[trigger] rest[k],),
            true,
        ) by {
            assert(rest[k] == s[k]);
        }
        lemma_no_neighbours(rest, is_near);
        assert(s.last() == s[s.len() - 1]);
    }
}

} // verus!
