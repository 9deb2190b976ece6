use vstd::prelude::*;

verus! {

/// The agents of `s` that `is_near` accepts, in their order in `s`.
pub open spec fn near_of<B, F: Fn(&B) -> bool>(s: Seq<B>, is_near: F) -> Seq<B>
    decreases s.len(),
{
    if s.len() == 0 {
        Seq::empty()
    } else {
        let rest = near_of(s.drop_last(), is_near);
        if is_near.ensures((&s.last(),), true) {
            rest.push(s.last())
        } else {
            rest
        }
    }
}

/// A test that answers one way for each agent.
pub open spec fn answers_once<B, F: Fn(&B) -> bool>(is_near: F) -> bool {
    forall|b: B| #[trigger] is_near.ensures((&b,), false) ==> !is_near.ensures((&b,), true)
}

/// A fresh list of the agents of `boids` that `is_near` accepts, in the order
/// in which they stand in `boids`; `boids` itself is left as it is.
pub fn find_near<B: Copy, F: Fn(&B) -> bool>(boids: &Vec<B>, is_near: F) -> (r: Vec<B>)
    requires
        forall|i: int| 0 <= i < boids@.len() ==> is_near.requires((&#[trigger] boids@[i],)),
        answers_once(is_near),
    ensures
        r@ == near_of(boids@, is_near),
{
    let mut results: Vec<B> = Vec::new();
    let mut i: usize = 0;
    while i < boids.len()
        invariant
            i <= boids@.len(),
            forall|j: int| 0 <= j < boids@.len() ==> is_near.requires((&#[trigger] boids@[j],)),
            answers_once(is_near),
            results@ == near_of(boids@.take(i as int), is_near),
        decreases boids@.len() - i,
    {
        let b = boids[i];
        let keep = is_near(&b);
        proof {
            assert(boids@.take(i as int + 1).drop_last() == boids@.take(i as int));
            assert(boids@.take(i as int + 1).last() == b);
        }
        if keep {
            results.push(b);
        }
        i = i + 1;
    }
    proof {
        assert(boids@.take(boids@.len() as int) == boids@);
    }
    results
}

} // verus!
