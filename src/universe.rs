use vstd::prelude::*;

verus! {

/// Whether the pointer position `(mx, my)` is one that agents react to:
/// the origin stands for "no pointer".
pub open spec fn spec_pointer_active(mx: u16, my: u16) -> bool {
    !(mx == 0 && my == 0)
}

/// Tells whether agents react to the pointer at `(mx, my)`; the origin means
/// that there is no pointer.
pub fn pointer_active(mx: u16, my: u16) -> (r: bool)
    ensures
        r == spec_pointer_active(mx, my),
{
    mx != 0 || my != 0
}

/// A bounded world that owns an ordered flock of agents.
///
/// The position of an agent in the flock is its identity: agents are only
/// ever appended, and a step keeps every agent at its index.
pub struct Universe<B> {
    width: u16,
    height: u16,
    boids: Vec<B>,
}

impl<B> Universe<B> {
    /// The agents, in the order in which they were created.
    pub closed spec fn agents(&self) -> Seq<B> {
        self.boids@
    }

    /// The flock as the collection that a step reads.
    pub closed spec fn flock(&self) -> Vec<B> {
        self.boids
    }

    /// The flock that a step reads holds exactly the agents.
    pub proof fn lemma_flock_is_agents(&self)
        ensures
            self.flock()@ == self.agents(),
    {
    }

    pub closed spec fn spec_width(&self) -> u16 {
        self.width
    }

    pub closed spec fn spec_height(&self) -> u16 {
        self.height
    }

    /// An empty world with the given bounds.
    pub fn new(width: u16, height: u16) -> (u: Self)
        ensures
            u.spec_width() == width,
            u.spec_height() == height,
            u.agents() == Seq::<B>::empty(),
    {
        Universe { width, height, boids: Vec::new() }
    }

    /// Changes the bounds; the agents stay where they are.
    pub fn resize(&mut self, width: u16, height: u16)
        ensures
            final(self).spec_width() == width,
            final(self).spec_height() == height,
            final(self).agents() == old(self).agents(),
    {
        self.width = width;
        self.height = height;
    }

    pub fn width(&self) -> (r: u16)
        ensures
            r == self.spec_width(),
    {
        self.width
    }

    pub fn height(&self) -> (r: u16)
        ensures
            r == self.spec_height(),
    {
        self.height
    }

    /// The number of agents in the flock.
    pub fn count(&self) -> (r: usize)
        ensures
            r == self.agents().len(),
    {
        self.boids.len()
    }

    /// Appends one agent at the end of the flock.
    pub fn create_boid(&mut self, boid: B)
        ensures
            final(self).agents() == old(self).agents().push(boid),
            final(self).spec_width() == old(self).spec_width(),
            final(self).spec_height() == old(self).spec_height(),
    {
        self.boids.push(boid);
    }
}

impl<B> Universe<B> {
    /// Advances every agent by one step, as `step` computes it.
    ///
    /// Every agent is stepped against the same pre-step flock: the new agent at
    /// index `i` is what `step` returns for the old agent at `i`, the whole old
    /// flock, the bounds and the pointer position `(mx, my)`. No agent sees
    /// another agent's new state within the same step.
    pub fn tick<F>(&mut self, mx: u16, my: u16, step: F)
        where
            F: Fn(&B, &Vec<B>, u16, u16, u16, u16) -> B,
        requires
            forall|i: int|
                0 <= i < old(self).agents().len() ==> step.requires(
                    (&#[trigger] old(self).agents()[i], &old(self).flock(), old(self).spec_width(),
                    old(self).spec_height(), mx, my),
                ),
        ensures
            final(self).spec_width() == old(self).spec_width(),
            final(self).spec_height() == old(self).spec_height(),
            final(self).agents().len() == old(self).agents().len(),
            forall|i: int|
                0 <= i < old(self).agents().len() ==> step.ensures(
                    (&old(self).agents()[i], &old(self).flock(), old(self).spec_width(),
                    old(self).spec_height(), mx, my),
                    #[trigger] final(self).agents()[i],
                ),
    {
        let n = self.boids.len();
        let mut next: Vec<B> = Vec::with_capacity(n);
        let mut i: usize = 0;
        while i < n
            invariant
                n == self.boids@.len(),
                i <= n,
                next@.len() == i,
                self == old(self),
                forall|j: int|
                    0 <= j < self.boids@.len() ==> step.requires(
                        (&#[trigger] self.boids@[j], &self.boids, self.width, self.height, mx, my),
                    ),
                forall|j: int|
                    0 <= j < i ==> step.ensures(
                        (&self.boids@[j], &self.boids, self.width, self.height, mx, my),
                        #[trigger] next@[j],
                    ),
            decreases n - i,
        {
            let b = step(&self.boids[i], &self.boids, self.width, self.height, mx, my);
            next.push(b);
            i = i + 1;
        }
        self.boids = next;
    }
}

impl<B: Copy> Universe<B> {
    /// A copy of the agent at `index`, or `None` when `index` is past the
    /// end of the flock.
    pub fn get_boid(&self, index: usize) -> (r: Option<B>)
        ensures
            index < self.agents().len() ==> r == Some(self.agents()[index as int]),
            index >= self.agents().len() ==> r.is_none(),
    {
        if index < self.boids.len() {
            Some(self.boids[index])
        } else {
            None
        }
    }
}

} // verus!
