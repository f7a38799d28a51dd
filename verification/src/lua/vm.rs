use crate::plan::{Op, OpView};
use vstd::prelude::*;

verus! {

/// The plan that a script builds up while it runs: the operations it has
/// declared so far, in the order in which it declared them.
///
/// The plan is one value with one owner. Whoever appends to it borrows it
/// mutably and so is alone with it for as long as the borrow lasts.
#[derive(Debug)]
pub struct Run {
    ops: Vec<Op>,
}

impl View for Run {
    type V = Seq<OpView>;

    closed spec fn view(&self) -> Seq<OpView> {
        self.ops.deep_view()
    }
}

impl Default for Run {
    fn default() -> (run: Run)
        ensures
            run@ == Seq::<OpView>::empty(),
    {
        let run = Run { ops: Vec::new() };
        assert(run.ops.deep_view() =~= Seq::<OpView>::empty());
        run
    }
}

impl Run {
    /// Hands out the plan for appending. What the borrower leaves in it is
    /// the plan from then on.
    pub fn lock(&mut self) -> (ops: &mut Vec<Op>)
        ensures
            ops.deep_view() == old(self)@,
            final(self)@ == final(ops).deep_view(),
    {
        &mut self.ops
    }

    /// Appends one operation to the plan.
    pub fn record(&mut self, op: Op)
        ensures
            final(self)@ == old(self)@.push(op@),
    {
        self.ops.push(op);
        assert(self.ops.deep_view() =~= old(self).ops.deep_view().push(op@));
    }

    /// The number of operations declared so far.
    pub fn len(&self) -> (count: usize)
        ensures
            count == self@.len(),
    {
        self.ops.len()
    }

    /// Ends the recording and gives up the plan, in the order of declaration.
    pub fn into_ops(self) -> (ops: Vec<Op>)
        ensures
            ops.deep_view() == self@,
    {
        self.ops
    }
}

} // verus!
