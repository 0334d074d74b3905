//! Labels of the control stack, and call frames.
use vstd::prelude::*;

use crate::runtime::store::FuncAddr;
use crate::runtime::value::Value;

verus! {

/// A Labels hold the arity of the block, the continuation (pc) and
/// the stack height (sp) for unwinding on exit.
///
/// We need two arities to handle branching on loops correctly.
/// A loop of type [t1*] -> [t2*], so when exiting the loop, on end,
/// t2 values needs to be left on the stack, but when looping
/// t1 values should be present on the stack
///
/// For other blocks, the br_arity and end_arity should be the same.
#[derive(Debug, Clone, Copy)]
pub struct Label {
    pub br_arity: u32,
    pub end_arity: u32,
    pub pc: isize,
    pub sp: usize,
}

impl Label {
    pub fn new(br_arity: u32, end_arity: u32, pc: isize, sp: usize) -> (r: Self)
        ensures
            r == (Label { br_arity, end_arity, pc, sp }),
    {
        Label { br_arity, end_arity, pc, sp }
    }
}

/// A call frame: the labels of the blocks entered, the function's arity and
/// address, its locals, the index of the instruction last run (`pc`), and the
/// height of the value stack below its arguments (`sp`).
#[derive(Debug, Clone)]
pub struct Frame {
    pub labels: Vec<Label>,
    pub arity: u32,
    pub funcaddr: FuncAddr,
    pub locals: Vec<Value>,
    pub pc: isize,
    pub sp: usize,
}

/// The model of a call frame: its fields, with the models of its vectors.
pub struct FrameV {
    pub labels: Seq<Label>,
    pub arity: u32,
    pub funcaddr: FuncAddr,
    pub locals: Seq<Value>,
    pub pc: isize,
    pub sp: usize,
}

impl View for Frame {
    type V = FrameV;

    open spec fn view(&self) -> FrameV {
        FrameV {
            labels: self.labels@,
            arity: self.arity,
            funcaddr: self.funcaddr,
            locals: self.locals@,
            pc: self.pc,
            sp: self.sp,
        }
    }
}

/// The models of the frames of a call stack.
pub open spec fn frames_view(frames: Seq<Frame>) -> Seq<FrameV> {
    frames.map_values(|f: Frame| f@)
}

/// Pushing a frame pushes its model.
pub proof fn lemma_frames_push(frames: Seq<Frame>, f: Frame)
    ensures
        frames_view(frames.push(f)) == frames_view(frames).push(f@),
{
    assert(frames_view(frames.push(f)) =~= frames_view(frames).push(f@));
}

/// Dropping the last frame drops its model.
pub proof fn lemma_frames_drop_last(frames: Seq<Frame>)
    requires
        frames.len() > 0,
    ensures
        frames_view(frames.drop_last()) == frames_view(frames).drop_last(),
        frames_view(frames).last() == frames.last()@,
{
    assert(frames_view(frames.drop_last()) =~= frames_view(frames).drop_last());
}

impl Frame {
    /// A frame before its first instruction: no labels, and `pc` before the start.
    pub fn new(arity: u32, funcaddr: FuncAddr, locals: Vec<Value>, sp: usize) -> (r: Self)
        ensures
            r.labels@ == Seq::<Label>::empty(),
            r.arity == arity,
            r.funcaddr == funcaddr,
            r.locals@ == locals@,
            r.pc == -1,
            r.sp == sp,
    {
        Frame { labels: Vec::new(), arity, funcaddr, locals, pc: -1, sp }
    }

    /// The label of the innermost block.
    pub fn current_label(&self) -> (r: &Label)
        requires
            self.labels@.len() > 0,
        ensures
            *r == self.labels@.last(),
    {
        let n = self.labels.len();
        &self.labels[n - 1]
    }

    /// Removes the label `n` levels out from the innermost one, with every
    /// label inside it, and returns it.
    pub fn pop_nth_label(&mut self, n: u32) -> (r: Label)
        requires
            (n as int) < old(self).labels@.len(),
        ensures
            r == old(self).labels@[old(self).labels@.len() - n - 1],
            final(self).labels@ == old(self).labels@.take(old(self).labels@.len() - n - 1),
            final(self).arity == old(self).arity,
            final(self).funcaddr == old(self).funcaddr,
            final(self).locals == old(self).locals,
            final(self).pc == old(self).pc,
            final(self).sp == old(self).sp,
    {
        let n = n as usize;
        let idx = self.labels.len() - n - 1;
        let label = self.labels.swap_remove(idx);
        self.labels.truncate(idx);
        proof {
            assert(self.labels@ =~= old(self).labels@.take(idx as int));
        }
        label
    }

    /// Enters a block whose branches and end both leave `arity` values.
    pub fn enter_block(&mut self, arity: u32, pc: isize, sp: usize)
        ensures
            final(self).labels@ == old(self).labels@.push(Label { br_arity: arity, end_arity: arity, pc, sp }),
            final(self).arity == old(self).arity,
            final(self).funcaddr == old(self).funcaddr,
            final(self).locals == old(self).locals,
            final(self).pc == old(self).pc,
            final(self).sp == old(self).sp,
    {
        self.labels.push(Label::new(arity, arity, pc, sp))
    }

    /// Enters a loop: a branch to it leaves `br_arity` values, its end `end_arity`.
    pub fn enter_loop(&mut self, br_arity: u32, end_arity: u32, pc: isize, sp: usize)
        ensures
            final(self).labels@ == old(self).labels@.push(Label { br_arity, end_arity, pc, sp }),
            final(self).arity == old(self).arity,
            final(self).funcaddr == old(self).funcaddr,
            final(self).locals == old(self).locals,
            final(self).pc == old(self).pc,
            final(self).sp == old(self).sp,
    {
        self.labels.push(Label::new(br_arity, end_arity, pc, sp))
    }
}

} // verus!
