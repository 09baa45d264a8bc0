//! The three commands that the front end can call: show the window, hide
//! it, and toggle its always-on-top flag. Each is a strict run: it fails
//! with the first failure that the host reports.

use vstd::prelude::*;
use crate::run::as_effects;
use crate::run::Effect;
use crate::run::Policy;
use crate::run::Run;
use crate::window::WindowOp;
use crate::window::WindowState;

verus! {

/// The operations of the show command: show the window, then focus it.
pub open spec fn show_plan() -> Seq<WindowOp> {
    seq![WindowOp::Show, WindowOp::Focus]
}

/// The operations of the hide command.
pub open spec fn hide_plan() -> Seq<WindowOp> {
    seq![WindowOp::Hide]
}

/// The operations that set the always-on-top flag to `target`.
pub open spec fn set_plan(target: bool) -> Seq<WindowOp> {
    seq![WindowOp::SetAlwaysOnTop(target)]
}

/// The flag that a toggle sets, given what the host answered when asked for
/// the current one: its negation, or the host's failure.
pub open spec fn toggle_target(current: Result<bool, String>) -> Result<bool, String> {
    match current {
        Ok(flag) => Ok(!flag),
        Err(reason) => Err(reason),
    }
}

/// What a toggle answers, given the host's answer on the current flag and
/// its report on setting the new one.
pub open spec fn toggle_answer(
    current: Result<bool, String>,
    set: Result<(), String>,
) -> Result<bool, String> {
    match toggle_target(current) {
        Ok(target) => reply_of(target, set),
        Err(reason) => Err(reason),
    }
}

/// The answer of a toggle that asked the host to set `target`.
pub open spec fn reply_of(target: bool, set: Result<(), String>) -> Result<bool, String> {
    match set {
        Ok(_) => Ok(target),
        Err(reason) => Err(reason),
    }
}

/// A window after a toggle on which the host failed nowhere.
pub open spec fn toggled(window: WindowState) -> WindowState {
    match toggle_target(Ok(window.always_on_top)) {
        Ok(flag) => window.after_all(set_plan(flag)),
        Err(_) => window,
    }
}

/// Shows and focuses the window; fails with the first failure of the two,
/// and does not ask for focus once showing has failed.
pub fn show_window() -> (r: Run)
    ensures
        r.wf(),
        r.fresh(as_effects(show_plan()), Policy::Strict),
{
    let mut plan: Vec<Effect> = Vec::new();
    plan.push(Effect::Window(WindowOp::Show));
    plan.push(Effect::Window(WindowOp::Focus));
    proof {
        assert(plan@ =~= as_effects(show_plan()));
    }
    Run::new(plan, Policy::Strict)
}

/// Hides the window; fails if the host fails to.
pub fn hide_window() -> (r: Run)
    ensures
        r.wf(),
        r.fresh(as_effects(hide_plan()), Policy::Strict),
{
    let mut plan: Vec<Effect> = Vec::new();
    plan.push(Effect::Window(WindowOp::Hide));
    proof {
        assert(plan@ =~= as_effects(hide_plan()));
    }
    Run::new(plan, Policy::Strict)
}

/// First half of the toggle: from the host's answer on the current flag to
/// the flag that is to be set, which is also what the command returns.
pub fn toggle_always_on_top(current: Result<bool, String>) -> (r: Result<bool, String>)
    ensures
        r == toggle_target(current),
{
    match current {
        Ok(flag) => Ok(!flag),
        Err(reason) => Err(reason),
    }
}

/// The run that sets the always-on-top flag to `target`.
pub fn set_always_on_top(target: bool) -> (r: Run)
    ensures
        r.wf(),
        r.fresh(as_effects(set_plan(target)), Policy::Strict),
{
    let mut plan: Vec<Effect> = Vec::new();
    plan.push(Effect::Window(WindowOp::SetAlwaysOnTop(target)));
    proof {
        assert(plan@ =~= as_effects(set_plan(target)));
    }
    Run::new(plan, Policy::Strict)
}

/// Second half of the toggle: the new flag if the host set it, else the
/// host's failure.
pub fn toggle_reply(target: bool, set: Result<(), String>) -> (r: Result<bool, String>)
    ensures
        r == reply_of(target, set),
{
    match set {
        Ok(_) => Ok(target),
        Err(reason) => Err(reason),
    }
}

/// Showing makes the window visible and leaves the always-on-top flag.
pub proof fn lemma_show_plan_shows(window: WindowState)
    ensures
        window.after_all(show_plan()) == (WindowState { visible: true, ..window }),
{
    reveal_with_fuel(WindowState::after_all, 3);
    assert(show_plan().drop_last() =~= seq![WindowOp::Show]);
    assert(show_plan().drop_last().drop_last() =~= Seq::<WindowOp>::empty());
}

/// Hiding makes the window invisible and leaves the always-on-top flag.
pub proof fn lemma_hide_plan_hides(window: WindowState)
    ensures
        window.after_all(hide_plan()) == (WindowState { visible: false, ..window }),
{
    reveal_with_fuel(WindowState::after_all, 2);
    assert(hide_plan().drop_last() =~= Seq::<WindowOp>::empty());
}

/// Setting the always-on-top flag sets it and leaves the visibility.
pub proof fn lemma_set_plan_sets(window: WindowState, target: bool)
    ensures
        window.after_all(set_plan(target)) == (WindowState { always_on_top: target, ..window }),
{
    reveal_with_fuel(WindowState::after_all, 2);
    assert(set_plan(target).drop_last() =~= Seq::<WindowOp>::empty());
}

/// A toggle answers the negated flag exactly if the host failed neither the
/// query nor the setting; else it answers the first of the two failures.
pub proof fn lemma_toggle_answer(current: Result<bool, String>, set: Result<(), String>)
    ensures
        current is Ok && set is Ok ==> toggle_answer(current, set) == Ok::<bool, String>(
            !current->Ok_0,
        ),
        current is Err ==> toggle_answer(current, set) == Err::<bool, String>(current->Err_0),
        current is Ok && set is Err ==> toggle_answer(current, set) == Err::<bool, String>(
            set->Err_0,
        ),
{
}

/// Two toggles in a row, neither of which the host fails, leave the
/// always-on-top flag as it was, and the first one negates it.
pub proof fn lemma_toggle_twice_restores(window: WindowState)
    ensures
        toggled(window).always_on_top == !window.always_on_top,
        toggled(window).visible == window.visible,
        toggled(toggled(window)) == window,
{
    lemma_set_plan_sets(window, !window.always_on_top);
    lemma_set_plan_sets(toggled(window), window.always_on_top);
}

} // verus!
