use tray_shell::command::{
    hide_window, set_always_on_top, show_window, toggle_always_on_top, toggle_reply,
};
use tray_shell::run::{Effect, Policy, Run};
use tray_shell::window::{WindowOp, WindowState};

fn op(op: WindowOp) -> Option<Effect> {
    Some(Effect::Window(op))
}

fn failure(text: &str) -> Result<(), String> {
    Err(text.to_string())
}

/// Runs a plan against a model window on which `failing` operations fail.
fn drive(mut run: Run, window: &mut WindowState, failing: &[WindowOp]) -> (Vec<WindowOp>, Result<(), String>) {
    let mut asked = Vec::new();
    while let Some(effect) = run.next() {
        let result = match effect {
            Effect::Window(op) => {
                asked.push(op);
                if failing.contains(&op) {
                    Err(format!("{:?} failed", op))
                } else {
                    *window = window.apply(op);
                    Ok(())
                }
            }
            other => panic!("a command asked for {:?}", other),
        };
        run = run.record(result);
    }
    (asked, run.outcome().unwrap())
}

#[test]
fn show_window_shows_then_focuses() {
    let run = show_window();
    assert_eq!(run.next(), op(WindowOp::Show));
    let run = run.record(Ok(()));
    assert_eq!(run.next(), op(WindowOp::Focus));
    let run = run.record(Ok(()));
    assert_eq!(run.next(), None);
    assert_eq!(run.outcome(), Some(Ok(())));
}

#[test]
fn show_window_fails_when_show_fails_and_skips_focus() {
    let run = show_window().record(failure("cannot show"));
    assert_eq!(run.next(), None);
    assert_eq!(run.outcome(), Some(failure("cannot show")));
}

#[test]
fn show_window_fails_when_focus_fails() {
    let run = show_window().record(Ok(())).record(failure("cannot focus"));
    assert_eq!(run.next(), None);
    assert_eq!(run.outcome(), Some(failure("cannot focus")));
}

#[test]
fn hide_window_hides() {
    let run = hide_window();
    assert_eq!(run.next(), op(WindowOp::Hide));
    let run = run.record(Ok(()));
    assert_eq!(run.next(), None);
    assert_eq!(run.outcome(), Some(Ok(())));
}

#[test]
fn hide_window_fails_when_hide_fails() {
    let run = hide_window().record(failure("cannot hide"));
    assert_eq!(run.outcome(), Some(failure("cannot hide")));
}

#[test]
fn unfinished_run_has_no_outcome() {
    assert_eq!(show_window().outcome(), None);
    assert_eq!(show_window().record(Ok(())).outcome(), None);
    assert_eq!(hide_window().outcome(), None);
}

#[test]
fn reports_on_a_finished_run_are_dropped() {
    let run = hide_window().record(Ok(())).record(failure("late"));
    assert_eq!(run.next(), None);
    assert_eq!(run.outcome(), Some(Ok(())));
    let run = hide_window().record(failure("first")).record(failure("second"));
    assert_eq!(run.outcome(), Some(failure("first")));
    let run = hide_window().record(failure("first")).record(Ok(()));
    assert_eq!(run.outcome(), Some(failure("first")));
}

#[test]
fn empty_run_is_finished_at_once() {
    let run = Run::new(vec![], Policy::Strict);
    assert_eq!(run.next(), None);
    assert_eq!(run.outcome(), Some(Ok(())));
}

#[test]
fn best_effort_run_goes_on_after_a_failure() {
    let run = Run::new(
        vec![Effect::Window(WindowOp::Show), Effect::KillBackend, Effect::Exit(0)],
        Policy::BestEffort,
    );
    assert_eq!(run.next(), op(WindowOp::Show));
    let run = run.record(failure("cannot show"));
    assert_eq!(run.next(), Some(Effect::KillBackend));
    let run = run.record(failure("cannot kill"));
    assert_eq!(run.next(), Some(Effect::Exit(0)));
    let run = run.record(Ok(()));
    assert_eq!(run.next(), None);
    assert_eq!(run.outcome(), Some(Ok(())));
}

#[test]
fn strict_run_asks_nothing_after_a_failure() {
    let mut window = WindowState { visible: false, always_on_top: false };
    let plan = vec![
        Effect::Window(WindowOp::Show),
        Effect::Window(WindowOp::SetAlwaysOnTop(true)),
        Effect::Window(WindowOp::Hide),
    ];
    let (asked, outcome) =
        drive(Run::new(plan, Policy::Strict), &mut window, &[WindowOp::SetAlwaysOnTop(true)]);
    assert_eq!(asked, vec![WindowOp::Show, WindowOp::SetAlwaysOnTop(true)]);
    assert_eq!(outcome, failure("SetAlwaysOnTop(true) failed"));
    assert_eq!(window, WindowState { visible: true, always_on_top: false });
}

#[test]
fn show_then_hide_commands_end_hidden() {
    let mut window = WindowState { visible: false, always_on_top: true };
    assert_eq!(drive(show_window(), &mut window, &[]).1, Ok(()));
    assert!(window.visible);
    assert_eq!(drive(hide_window(), &mut window, &[]).1, Ok(()));
    assert!(!window.visible);
    assert_eq!(drive(show_window(), &mut window, &[]).1, Ok(()));
    assert_eq!(window, WindowState { visible: true, always_on_top: true });
}

#[test]
fn toggle_negates_the_current_flag() {
    assert_eq!(toggle_always_on_top(Ok(false)), Ok(true));
    assert_eq!(toggle_always_on_top(Ok(true)), Ok(false));
}

#[test]
fn toggle_fails_when_the_query_fails() {
    assert_eq!(toggle_always_on_top(Err("no window".to_string())), Err("no window".to_string()));
}

#[test]
fn toggle_sets_the_target_flag() {
    for target in [false, true] {
        let run = set_always_on_top(target);
        assert_eq!(run.next(), op(WindowOp::SetAlwaysOnTop(target)));
        let run = run.record(Ok(()));
        assert_eq!(run.next(), None);
        assert_eq!(run.outcome(), Some(Ok(())));
    }
}

#[test]
fn toggle_reply_is_the_new_flag_or_the_failure() {
    assert_eq!(toggle_reply(true, Ok(())), Ok(true));
    assert_eq!(toggle_reply(false, Ok(())), Ok(false));
    assert_eq!(toggle_reply(true, failure("cannot set")), Err("cannot set".to_string()));
}

fn toggle_on(window: &mut WindowState) -> Result<bool, String> {
    let target = toggle_always_on_top(Ok(window.always_on_top))?;
    let (_, outcome) = drive(set_always_on_top(target), window, &[]);
    toggle_reply(target, outcome)
}

#[test]
fn toggle_twice_restores_the_flag() {
    for start in [false, true] {
        let before = WindowState { visible: true, always_on_top: start };
        let mut window = before;
        assert_eq!(toggle_on(&mut window), Ok(!start));
        assert_eq!(window.always_on_top, !start);
        assert_eq!(toggle_on(&mut window), Ok(start));
        assert_eq!(window, before);
    }
}

#[test]
fn failed_set_leaves_the_flag_and_fails_the_toggle() {
    let mut window = WindowState { visible: true, always_on_top: false };
    let target = toggle_always_on_top(Ok(window.always_on_top)).unwrap();
    let (asked, outcome) =
        drive(set_always_on_top(target), &mut window, &[WindowOp::SetAlwaysOnTop(true)]);
    assert_eq!(asked, vec![WindowOp::SetAlwaysOnTop(true)]);
    assert_eq!(toggle_reply(target, outcome), Err("SetAlwaysOnTop(true) failed".to_string()));
    assert!(!window.always_on_top);
}

#[test]
fn strict_run_answers_the_first_of_several_failures() {
    let plan = vec![
        Effect::Window(WindowOp::Show),
        Effect::Window(WindowOp::Focus),
        Effect::Window(WindowOp::Hide),
    ];
    let run = Run::new(plan, Policy::Strict)
        .record(Ok(()))
        .record(failure("second"))
        .record(failure("third"));
    assert_eq!(run.next(), None);
    assert_eq!(run.outcome(), Some(failure("second")));
}
