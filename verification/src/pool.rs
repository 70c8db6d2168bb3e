//! How many pieces of work may be under way at once.
//!
//! A `Pool` holds the work that waits and counts the work under way. The
//! caller takes work from it while it gives some, tells it of each piece that
//! ended, and hands back work that has to be done again, which then comes
//! before all that waits.

use vstd::prelude::*;

verus! {

/// A bounded pool of work.
pub struct Pool<T> {
    limit: usize,
    running: usize,
    waiting: Vec<T>,
}

/// A pool as the contracts see it.
pub struct PoolView<T> {
    /// How many pieces of work may be under way at once.
    pub limit: nat,
    /// How many are under way.
    pub running: nat,
    /// The work that waits, the next piece first.
    pub waiting: Seq<T>,
}

/// What can happen to a pool.
pub enum PoolOp<T> {
    /// The caller asks for work.
    Start,
    /// A piece of work has ended.
    Finish,
    /// A piece of work is handed back to be done again.
    Resubmit(T),
}

impl<T> PoolView<T> {
    /// Work waits and may be started.
    pub open spec fn can_start(self) -> bool {
        self.running < self.limit && self.waiting.len() > 0
    }

    /// The pool after `op`. Work is started only below the limit, and then it
    /// is the piece that waited first; work handed back goes before all that
    /// waits.
    pub open spec fn apply(self, op: PoolOp<T>) -> PoolView<T> {
        match op {
            PoolOp::Start => if self.can_start() {
                PoolView {
                    running: self.running + 1,
                    waiting: self.waiting.drop_first(),
                    ..self
                }
            } else {
                self
            },
            PoolOp::Finish => if self.running > 0 {
                PoolView { running: (self.running - 1) as nat, ..self }
            } else {
                self
            },
            PoolOp::Resubmit(item) => PoolView { waiting: seq![item] + self.waiting, ..self },
        }
    }

    /// The pool after all of `ops`, one after the other.
    pub open spec fn apply_all(self, ops: Seq<PoolOp<T>>) -> PoolView<T>
        decreases ops.len(),
    {
        if ops.len() == 0 {
            self
        } else {
            self.apply(ops[0]).apply_all(ops.drop_first())
        }
    }
}

impl<T> View for Pool<T> {
    type V = PoolView<T>;

    closed spec fn view(&self) -> PoolView<T> {
        PoolView {
            limit: self.limit as nat,
            running: self.running as nat,
            waiting: self.waiting@,
        }
    }
}

impl<T> Pool<T> {
    #[verifier::type_invariant]
    spec fn within_limit(&self) -> bool {
        self.running <= self.limit
    }

    /// A pool in which `items` wait, in their order, and of which at most
    /// `limit` may be under way at once.
    pub fn new(limit: usize, items: Vec<T>) -> (pool: Pool<T>)
        ensures
            pool@ == (PoolView { limit: limit as nat, running: 0, waiting: items@ }),
    {
        Pool { limit, running: 0, waiting: items }
    }

    /// How many pieces of work are under way: never more than the limit.
    pub fn in_flight(&self) -> (r: usize)
        ensures
            r == self@.running,
            r <= self@.limit,
    {
        proof {
            use_type_invariant(self);
        }
        self.running
    }

    /// How many pieces of work wait.
    pub fn waiting(&self) -> (r: usize)
        ensures
            r == self@.waiting.len(),
    {
        self.waiting.len()
    }

    /// Tells whether all work is done: none waits and none is under way.
    pub fn is_idle(&self) -> (r: bool)
        ensures
            r == (self@.running == 0 && self@.waiting.len() == 0),
    {
        self.running == 0 && self.waiting.len() == 0
    }

    /// Takes the pool out of its place and leaves an empty one there.
    fn take(&mut self) -> (taken: Pool<T>)
        ensures
            taken == *old(self),
            taken.running <= taken.limit,
    {
        let mut taken = Pool { limit: 0, running: 0, waiting: Vec::new() };
        core::mem::swap(self, &mut taken);
        proof {
            use_type_invariant(&taken);
        }
        taken
    }

    /// Hands out the piece of work that waited first and counts it as under
    /// way; `None` where none waits or the limit is reached.
    pub fn next(&mut self) -> (r: Option<T>)
        ensures
            final(self)@ == old(self)@.apply(PoolOp::Start),
            match r {
                Some(item) => old(self)@.can_start() && item == old(self)@.waiting[0],
                None => !old(self)@.can_start(),
            },
    {
        let Pool { limit, running, mut waiting } = self.take();
        if running < limit && waiting.len() > 0 {
            let item = waiting.remove(0);
            assert(waiting@ =~= old(self).waiting@.drop_first());
            *self = Pool { limit, running: running + 1, waiting };
            Some(item)
        } else {
            *self = Pool { limit, running, waiting };
            None
        }
    }

    /// Counts one piece of work as ended.
    pub fn finished(&mut self)
        ensures
            final(self)@ == old(self)@.apply(PoolOp::Finish),
    {
        let Pool { limit, running, waiting } = self.take();
        if running > 0 {
            *self = Pool { limit, running: running - 1, waiting };
        } else {
            *self = Pool { limit, running, waiting };
        }
    }

    /// Takes back a piece of work that has to be done again. It will be handed
    /// out before all that waits.
    pub fn resubmit(&mut self, item: T)
        ensures
            final(self)@ == old(self)@.apply(PoolOp::Resubmit(item)),
    {
        let Pool { limit, running, mut waiting } = self.take();
        waiting.insert(0, item);
        assert(waiting@ =~= seq![item] + old(self).waiting@);
        *self = Pool { limit, running, waiting };
    }
}

/// Whatever happens to a pool, in whatever order, no more pieces of work are
/// under way than its limit allows, and the limit stays what it was.
pub proof fn lemma_never_more_than_the_limit<T>(v: PoolView<T>, ops: Seq<PoolOp<T>>)
    requires
        v.running <= v.limit,
    ensures
        v.apply_all(ops).running <= v.limit,
        v.apply_all(ops).limit == v.limit,
    decreases ops.len(),
{
    if ops.len() > 0 {
        lemma_never_more_than_the_limit(v.apply(ops[0]), ops.drop_first());
    }
}

/// Work that was handed back is the next to be handed out.
pub proof fn lemma_resubmitted_work_comes_first<T>(v: PoolView<T>, item: T)
    requires
        v.running < v.limit,
    ensures
        v.apply(PoolOp::Resubmit(item)).can_start(),
        v.apply(PoolOp::Resubmit(item)).waiting[0] == item,
        v.apply(PoolOp::Resubmit(item)).apply(PoolOp::Start).waiting == v.waiting,
{
    assert((seq![item] + v.waiting).drop_first() =~= v.waiting);
}

} // verus!
