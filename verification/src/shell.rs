//! The running shell: what each tray or window event asks of the host, and
//! what becomes of the backend's handle.

use vstd::prelude::*;
use crate::command::hide_plan;
use crate::command::lemma_hide_plan_hides;
use crate::command::lemma_show_plan_shows;
use crate::command::show_plan;
use crate::menu::MenuAction;
use crate::run::as_effects;
use crate::run::Effect;
use crate::run::Policy;
use crate::run::Run;
use crate::window::WindowOp;
use crate::window::WindowState;

verus! {

/// The exit code of the application when it quits.
pub const EXIT_CODE: i32 = 0;

/// An event that the host delivers to the shell.
#[derive(Clone, Copy, Debug, PartialEq, Eq, Structural)]
pub enum ShellEvent {
    /// An entry of the tray menu was chosen.
    Menu(MenuAction),
    /// The tray icon itself was clicked.
    TrayClick,
    /// The user asked to close the main window.
    CloseRequested,
}

/// What the host is to do about an event.
#[derive(Debug)]
pub struct Reaction<H> {
    /// The effects to carry out, in order. None of their failures is
    /// surfaced: the run goes on after each.
    pub run: Run,
    /// The handle of the backend that the run asks to kill, if it does.
    pub kill: Option<H>,
}

/// The shell's own state: the handle of the backend, if one is running
/// under its supervision.
#[derive(Debug)]
pub struct Shell<H> {
    backend: Option<H>,
}

/// Whether an event ends the application: only the quit entry does.
pub open spec fn quits(event: ShellEvent) -> bool {
    event == ShellEvent::Menu(MenuAction::Quit)
}

/// Whether an event asks for the window to be shown.
pub open spec fn shows(event: ShellEvent) -> bool {
    event == ShellEvent::Menu(MenuAction::Show) || event == ShellEvent::TrayClick
}

/// Whether an event asks for the window to be hidden.
pub open spec fn hides(event: ShellEvent) -> bool {
    event == ShellEvent::Menu(MenuAction::Hide) || event == ShellEvent::CloseRequested
}

/// The window operations that an event asks for. Where the host found no
/// main window there is nothing to operate on, and the event asks for none.
pub open spec fn window_plan(event: ShellEvent, window_found: bool) -> Seq<WindowOp> {
    if !window_found {
        Seq::empty()
    } else if shows(event) {
        show_plan()
    } else if hides(event) {
        hide_plan()
    } else {
        Seq::empty()
    }
}

/// The model window after a sequence of events on a host that finds the
/// window and fails no operation.
pub open spec fn window_after(start: WindowState, events: Seq<ShellEvent>) -> WindowState
    decreases events.len(),
{
    if events.len() == 0 {
        start
    } else {
        window_after(start, events.drop_last()).after_all(window_plan(events.last(), true))
    }
}

/// The effects that an event asks for, first to last: the window
/// operations; for a close request, its suppression; for quit, the kill of
/// the backend where the shell holds one, then the exit.
pub open spec fn effects_of(
    event: ShellEvent,
    window_found: bool,
    has_backend: bool,
) -> Seq<Effect> {
    let window = as_effects(window_plan(event, window_found));
    if event is CloseRequested {
        window.push(Effect::PreventClose)
    } else if quits(event) {
        if has_backend {
            window.push(Effect::KillBackend).push(Effect::Exit(EXIT_CODE))
        } else {
            window.push(Effect::Exit(EXIT_CODE))
        }
    } else {
        window
    }
}

/// The handle that an event hands out to be killed.
pub open spec fn killed_by<H>(backend: Option<H>, event: ShellEvent) -> Option<H> {
    if quits(event) {
        backend
    } else {
        None
    }
}

/// The handle that the shell keeps after an event.
pub open spec fn kept_after<H>(backend: Option<H>, event: ShellEvent) -> Option<H> {
    if quits(event) {
        None
    } else {
        backend
    }
}

/// The handle that the shell keeps after a sequence of events.
pub open spec fn kept_after_all<H>(backend: Option<H>, events: Seq<ShellEvent>) -> Option<H>
    decreases events.len(),
{
    if events.len() == 0 {
        backend
    } else {
        kept_after(kept_after_all(backend, events.drop_last()), events.last())
    }
}

/// The event of a menu identifier; none for an identifier that no entry has.
pub open spec fn menu_event(id: Seq<char>) -> Option<ShellEvent> {
    match MenuAction::spec_from_id(id) {
        Some(action) => Some(ShellEvent::Menu(action)),
        None => None,
    }
}

impl ShellEvent {
    /// The event of a click on the menu entry registered under `id`.
    pub fn from_menu_id(id: &str) -> (r: Option<ShellEvent>)
        ensures
            r == menu_event(id@),
    {
        match MenuAction::from_id(id) {
            Some(action) => Some(ShellEvent::Menu(action)),
            None => None,
        }
    }
}

impl<H> Shell<H> {
    /// The backend's handle, while the shell holds one.
    pub closed spec fn backend(self) -> Option<H> {
        self.backend
    }

    /// A shell that supervises `backend`, or nothing.
    pub fn new(backend: Option<H>) -> (r: Shell<H>)
        ensures
            r.backend() == backend,
    {
        Shell { backend }
    }

    /// Whether the shell holds the handle of a backend.
    pub fn has_backend(&self) -> (r: bool)
        ensures
            r == self.backend() is Some,
    {
        self.backend.is_some()
    }

    /// Reacts to one event; `window_found` says whether the host has a main
    /// window to operate on. Quit hands the backend's handle out, if the shell
    /// holds one, and exits; every other event leaves the handle where it is
    /// and the application running.
    pub fn handle(&mut self, event: ShellEvent, window_found: bool) -> (r: Reaction<H>)
        ensures
            r.run.wf(),
            r.run.fresh(
                effects_of(event, window_found, old(self).backend() is Some),
                Policy::BestEffort,
            ),
            r.kill == killed_by(old(self).backend(), event),
            final(self).backend() == kept_after(old(self).backend(), event),
    {
        let ghost held = self.backend is Some;
        let mut plan: Vec<Effect> = Vec::new();
        let mut kill: Option<H> = None;
        match event {
            ShellEvent::Menu(MenuAction::Quit) => {
                kill = self.backend.take();
                if kill.is_some() {
                    plan.push(Effect::KillBackend);
                }
                plan.push(Effect::Exit(EXIT_CODE));
            },
            ShellEvent::Menu(MenuAction::Show) | ShellEvent::TrayClick => {
                if window_found {
                    plan.push(Effect::Window(WindowOp::Show));
                    plan.push(Effect::Window(WindowOp::Focus));
                }
            },
            ShellEvent::Menu(MenuAction::Hide) => {
                if window_found {
                    plan.push(Effect::Window(WindowOp::Hide));
                }
            },
            ShellEvent::CloseRequested => {
                if window_found {
                    plan.push(Effect::Window(WindowOp::Hide));
                }
                plan.push(Effect::PreventClose);
            },
        }
        proof {
            assert(plan@ =~= effects_of(event, window_found, held));
        }
        Reaction { run: Run::new(plan, Policy::BestEffort), kill }
    }
}

/// Quit hands a handle out to be killed exactly if the shell holds one, and
/// the shell holds none afterwards.
pub proof fn lemma_quit_kills_what_is_held<H>(backend: Option<H>)
    ensures
        killed_by(backend, ShellEvent::Menu(MenuAction::Quit)) is Some <==> backend is Some,
        killed_by(backend, ShellEvent::Menu(MenuAction::Quit)) == backend,
        kept_after(backend, ShellEvent::Menu(MenuAction::Quit)) is None,
{
}

/// Once quit has occurred among the events, the shell holds no handle,
/// whatever followed: no later event can hand the backend out again.
pub proof fn lemma_no_handle_after_quit<H>(backend: Option<H>, events: Seq<ShellEvent>, i: int)
    requires
        0 <= i < events.len(),
        quits(events[i]),
    ensures
        kept_after_all(backend, events) is None,
        forall|event: ShellEvent| killed_by(kept_after_all(backend, events), event) is None,
    decreases events.len(),
{
    if i < events.len() - 1 {
        lemma_no_handle_after_quit(backend, events.drop_last(), i);
    }
}

/// Events other than quit leave the handle with the shell.
pub proof fn lemma_handle_kept_without_quit<H>(backend: Option<H>, events: Seq<ShellEvent>)
    requires
        forall|i: int| 0 <= i < events.len() ==> !quits(#[trigger] events[i]),
    ensures
        kept_after_all(backend, events) == backend,
    decreases events.len(),
{
    if events.len() > 0 {
        lemma_handle_kept_without_quit(backend, events.drop_last());
    }
}

/// After any non-empty sequence of events the window is as the last event
/// left it: visible after a show or a tray click, hidden after a hide or a
/// close request, whatever came before.
pub proof fn lemma_last_event_decides_visibility(start: WindowState, events: Seq<ShellEvent>)
    requires
        events.len() > 0,
    ensures
        shows(events.last()) ==> window_after(start, events).visible,
        hides(events.last()) ==> !window_after(start, events).visible,
{
    let before = window_after(start, events.drop_last());
    lemma_show_plan_shows(before);
    lemma_hide_plan_hides(before);
}

/// No event changes the always-on-top flag.
pub proof fn lemma_events_keep_always_on_top(start: WindowState, events: Seq<ShellEvent>)
    ensures
        window_after(start, events).always_on_top == start.always_on_top,
    decreases events.len(),
{
    if events.len() > 0 {
        lemma_events_keep_always_on_top(start, events.drop_last());
        let before = window_after(start, events.drop_last());
        lemma_show_plan_shows(before);
        lemma_hide_plan_hides(before);
        assert(before.after_all(Seq::<WindowOp>::empty()) == before);
    }
}

/// The application ends on quit and on nothing else: the effects of an
/// event hold an exit exactly if the event is quit, and then it is the last
/// of them and carries the exit code zero.
pub proof fn lemma_only_quit_exits(event: ShellEvent, window_found: bool, has_backend: bool)
    ensures
        (exists|i: int, code: i32|
            0 <= i < effects_of(event, window_found, has_backend).len() && effects_of(
                event,
                window_found,
                has_backend,
            )[i] == Effect::Exit(code)) <==> quits(event),
        quits(event) ==> effects_of(event, window_found, has_backend).last() == Effect::Exit(0),
{
    let effects = effects_of(event, window_found, has_backend);
    if quits(event) {
        assert(effects[effects.len() - 1] == Effect::Exit(0));
    }
}

/// The backend is killed on quit where the shell holds a handle, and
/// nowhere else; the kill comes before the exit.
pub proof fn lemma_kill_only_on_quit_with_backend(
    event: ShellEvent,
    window_found: bool,
    has_backend: bool,
)
    ensures
        (exists|i: int|
            0 <= i < effects_of(event, window_found, has_backend).len() && effects_of(
                event,
                window_found,
                has_backend,
            )[i] == Effect::KillBackend) <==> (quits(event) && has_backend),
        quits(event) && has_backend ==> effects_of(event, window_found, has_backend) == seq![
            Effect::KillBackend,
            Effect::Exit(0),
        ],
        quits(event) && !has_backend ==> effects_of(event, window_found, has_backend) == seq![
            Effect::Exit(0),
        ],
{
    let effects = effects_of(event, window_found, has_backend);
    if quits(event) && has_backend {
        assert(effects =~= seq![Effect::KillBackend, Effect::Exit(0)]);
        assert(effects[0] == Effect::KillBackend);
    }
    if quits(event) && !has_backend {
        assert(effects =~= seq![Effect::Exit(0)]);
    }
}

/// A close request hides the window, then suppresses the close, and neither
/// kills the backend nor ends the application.
pub proof fn lemma_close_request_keeps_running<H>(backend: Option<H>)
    ensures
        !quits(ShellEvent::CloseRequested),
        effects_of(ShellEvent::CloseRequested, true, backend is Some) == seq![
            Effect::Window(WindowOp::Hide),
            Effect::PreventClose,
        ],
        window_plan(ShellEvent::CloseRequested, true) == hide_plan(),
        killed_by(backend, ShellEvent::CloseRequested) is None,
        kept_after(backend, ShellEvent::CloseRequested) == backend,
{
    assert(effects_of(ShellEvent::CloseRequested, true, backend is Some) =~= seq![
        Effect::Window(WindowOp::Hide),
        Effect::PreventClose,
    ]);
}

} // verus!
