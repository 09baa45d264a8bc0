//! The operations that the shell asks of the host window, and a model of
//! what they do to it.

use vstd::prelude::*;

verus! {

/// An operation on the host window.
#[derive(Clone, Copy, Debug, PartialEq, Eq, Structural)]
pub enum WindowOp {
    Show,
    Focus,
    Hide,
    SetAlwaysOnTop(bool),
}

/// What the shell's operations can change of a window. The host owns the
/// real state; this is the model against which the shell's plans are stated.
#[derive(Clone, Copy, Debug, PartialEq, Eq, Structural)]
pub struct WindowState {
    pub visible: bool,
    pub always_on_top: bool,
}

impl WindowState {
    /// The window after one operation that succeeded. Focus changes neither
    /// visibility nor the always-on-top flag.
    pub open spec fn after(self, op: WindowOp) -> WindowState {
        match op {
            WindowOp::Show => WindowState { visible: true, ..self },
            WindowOp::Hide => WindowState { visible: false, ..self },
            WindowOp::Focus => self,
            WindowOp::SetAlwaysOnTop(flag) => WindowState { always_on_top: flag, ..self },
        }
    }

    /// The window after a sequence of operations, applied first to last.
    pub open spec fn after_all(self, ops: Seq<WindowOp>) -> WindowState
        decreases ops.len(),
    {
        if ops.len() == 0 {
            self
        } else {
            self.after_all(ops.drop_last()).after(ops.last())
        }
    }

    /// Applies one operation to the model.
    pub fn apply(self, op: WindowOp) -> (r: WindowState)
        ensures
            r == self.after(op),
    {
        match op {
            WindowOp::Show => WindowState { visible: true, always_on_top: self.always_on_top },
            WindowOp::Hide => WindowState { visible: false, always_on_top: self.always_on_top },
            WindowOp::Focus => self,
            WindowOp::SetAlwaysOnTop(flag) => WindowState {
                visible: self.visible,
                always_on_top: flag,
            },
        }
    }

    /// Applies a sequence of operations to the model, first to last.
    pub fn apply_all(self, ops: &Vec<WindowOp>) -> (r: WindowState)
        ensures
            r == self.after_all(ops@),
    {
        let mut state = self;
        let mut i: usize = 0;
        while i < ops.len()
            invariant
                i <= ops.len(),
                state == self.after_all(ops@.take(i as int)),
            decreases ops.len() - i,
        {
            proof {
                assert(ops@.take(i + 1).drop_last() =~= ops@.take(i as int));
            }
            state = state.apply(ops[i]);
            i += 1;
        }
        proof {
            assert(ops@.take(i as int) =~= ops@);
        }
        state
    }
}

/// The label of the one window that the shell manages.
pub fn main_window() -> (r: &'static str)
    ensures
        r@ == "main"@,
{
    "main"
}

/// Whether an operation shows or hides the window.
pub open spec fn changes_visibility(op: WindowOp) -> bool {
    op is Show || op is Hide
}

/// After any non-empty sequence of show and hide operations the window is
/// visible exactly if the last of them was a show, whatever it was before.
pub proof fn lemma_last_visibility_op_decides(start: WindowState, ops: Seq<WindowOp>)
    requires
        ops.len() > 0,
        forall|i: int| 0 <= i < ops.len() ==> changes_visibility(#[trigger] ops[i]),
    ensures
        start.after_all(ops).visible == (ops.last() is Show),
{
    assert(changes_visibility(ops[ops.len() - 1]));
}

/// Operations that neither show nor hide leave the visibility as it was.
pub proof fn lemma_other_ops_keep_visibility(start: WindowState, ops: Seq<WindowOp>)
    requires
        forall|i: int| 0 <= i < ops.len() ==> !changes_visibility(#[trigger] ops[i]),
    ensures
        start.after_all(ops).visible == start.visible,
    decreases ops.len(),
{
    if ops.len() > 0 {
        lemma_other_ops_keep_visibility(start, ops.drop_last());
    }
}

} // verus!
