use ditto_quickstart::events::{key_event, KeyCode, KeyInput, TermEvent};
use ditto_quickstart::render::Overlay;
use ditto_quickstart::should_quit;
use ditto_quickstart::shutdown::ShutdownCore;
use ditto_quickstart::term::OnShutdown;
use ditto_quickstart::todo::TodoItem;
use ditto_quickstart::tui::todolist::{move_down, move_up};
use ditto_quickstart::tui::{AppError, EventResult, Flow, TuiContext, TuiEvent};

fn ch(c: char) -> TermEvent {
    key_event(KeyCode::Char(c))
}

fn sample_tasks(titles: &[&str]) -> Vec<TodoItem> {
    titles.iter().map(|t| TodoItem::new(t.to_string())).collect()
}

#[test]
fn frame_tick_continues_without_command() {
    let mut ctx = TuiContext::new();
    let tasks = Vec::new();
    let d = ctx.try_handle_event(&TuiEvent::FrameTick, &tasks, false).unwrap();
    assert_eq!(d.flow, Flow::Continue);
    assert!(d.command.is_none());
    assert!(!d.quit);
}

#[test]
fn shutdown_event_breaks_in_every_mode() {
    let tasks = sample_tasks(&["one"]);
    // normal mode
    let mut ctx = TuiContext::new();
    let d = ctx.try_handle_event(&TuiEvent::Shutdown, &tasks, false).unwrap();
    assert_eq!(d.flow, Flow::Break);
    assert!(d.command.is_none());
    // while typing a new task
    let mut ctx = TuiContext::new();
    ctx.try_handle_event(&TuiEvent::Terminal(Ok(ch('c'))), &tasks, false).unwrap();
    let d = ctx.try_handle_event(&TuiEvent::Shutdown, &tasks, false).unwrap();
    assert_eq!(d.flow, Flow::Break);
    // while typing a search
    let mut ctx = TuiContext::new();
    ctx.try_handle_event(&TuiEvent::Terminal(Ok(ch('f'))), &tasks, false).unwrap();
    let d = ctx.try_handle_event(&TuiEvent::Shutdown, &tasks, false).unwrap();
    assert_eq!(d.flow, Flow::Break);
}

#[test]
fn terminal_read_failure_is_reported() {
    let mut ctx = TuiContext::new();
    let tasks = Vec::new();
    let err = ctx
        .try_handle_event(&TuiEvent::Terminal(Err(AppError::TerminalIoError)), &tasks, false)
        .unwrap_err();
    assert_eq!(err, AppError::TerminalIoError);
}

#[test]
fn quit_key_breaks_only_when_ignored() {
    let tasks = Vec::new();
    // `q` in normal mode is not a todolist key: it quits
    let mut ctx = TuiContext::new();
    let d = ctx.try_handle_event(&TuiEvent::Terminal(Ok(ch('q'))), &tasks, false).unwrap();
    assert_eq!(d.flow, Flow::Break);
    assert!(d.quit);
    // `q` while typing goes into the buffer instead
    let mut ctx = TuiContext::new();
    ctx.try_handle_event(&TuiEvent::Terminal(Ok(ch('c'))), &tasks, false).unwrap();
    let d = ctx.try_handle_event(&TuiEvent::Terminal(Ok(ch('q'))), &tasks, false).unwrap();
    assert_eq!(d.flow, Flow::Continue);
    assert!(!d.quit);
}

#[test]
fn control_c_and_control_d_quit() {
    let ctrl = |c: char| TermEvent::Key(KeyInput { code: KeyCode::Char(c), ctrl: true });
    assert!(should_quit(&ctrl('c')));
    assert!(should_quit(&ctrl('d')));
    assert!(should_quit(&ch('q')));
    assert!(!should_quit(&ch('x')));
    assert!(!should_quit(&key_event(KeyCode::Enter)));
    assert!(!should_quit(&TermEvent::Other));
}

#[test]
fn selection_failure_leaves_dispatch_state_unchanged() {
    let tasks = sample_tasks(&["one"]);
    let mut ctx = TuiContext::new();
    let err = ctx.try_handle_event(&TuiEvent::Terminal(Ok(ch('d'))), &tasks, false).unwrap_err();
    assert_eq!(err, AppError::SelectionMissing);
    // recovery: the loop restarts and the next event still works
    let d = ctx.try_handle_event(&TuiEvent::Terminal(Ok(key_event(KeyCode::Down))), &tasks, false).unwrap();
    assert_eq!(d.flow, Flow::Continue);
    assert_eq!(ctx.todolist.selected, Some(0));
}

#[test]
fn event_results_report_their_variant() {
    assert!(EventResult::Ignored.is_ignored());
    assert!(!EventResult::Ignored.is_consumed());
    assert!(EventResult::Consumed.is_consumed());
    assert!(!EventResult::Consumed.is_ignored());
}

#[test]
fn shutdown_trigger_is_idempotent() {
    let mut core = ShutdownCore::new();
    assert!(!core.is_triggered());
    assert!(core.trigger("first".to_string()));
    assert!(core.is_triggered());
    // the second trigger is a no-op and the first reason wins
    assert!(!core.trigger("second".to_string()));
    assert_eq!(core.current_reason().as_deref(), Some("first"));
}

#[test]
fn task_exit_triggers_when_nothing_else_did() {
    let mut core = ShutdownCore::new();
    core.on_task_exit("loop quit unexpectedly".to_string());
    assert_eq!(core.current_reason().as_deref(), Some("loop quit unexpectedly"));

    let mut core = ShutdownCore::new();
    core.trigger("user quit".to_string());
    core.on_task_exit("loop quit unexpectedly".to_string());
    assert_eq!(core.current_reason().as_deref(), Some("user quit"));
}

#[test]
fn shutdown_completes_when_handles_are_released() {
    let mut core = ShutdownCore::new();
    core.add_handle();
    assert!(!core.is_completed());
    core.release_handle();
    core.release_handle();
    assert!(core.is_completed());
}

#[test]
fn terminal_guard_restores_exactly_once() {
    let mut guard = OnShutdown::new();
    assert!(guard.claim());
    // a second exit path (the process-level fallback hook) must not run
    // the restore action again
    assert!(!guard.claim());
}

#[test]
fn movement_helpers_clamp() {
    assert_eq!(move_down(None, 0), None);
    assert_eq!(move_up(None, 0), None);
    assert_eq!(move_down(None, 3), Some(0));
    assert_eq!(move_up(None, 3), Some(2));
    assert_eq!(move_down(Some(2), 3), Some(2));
    assert_eq!(move_up(Some(0), 3), Some(0));
    assert_eq!(move_down(Some(7), 3), Some(2));
    assert_eq!(move_up(Some(7), 3), Some(2));
}

#[test]
fn render_shows_rows_selection_and_overlay() {
    let tasks = sample_tasks(&["milk", "dog"]);
    let mut ctx = TuiContext::new();
    ctx.try_handle_event(&TuiEvent::Terminal(Ok(key_event(KeyCode::Down))), &tasks, false).unwrap();
    let frame = ctx.todolist.render(&tasks, true);
    assert_eq!(frame.rows.len(), 2);
    assert_eq!(frame.rows[0].title, "milk");
    assert!(!frame.rows[0].done);
    assert_eq!(frame.selected, Some(0));
    assert!(frame.sync_active);
    assert!(frame.overlay.is_none());

    ctx.try_handle_event(&TuiEvent::Terminal(Ok(ch('c'))), &tasks, false).unwrap();
    ctx.try_handle_event(&TuiEvent::Terminal(Ok(ch('x'))), &tasks, false).unwrap();
    let frame = ctx.todolist.render(&tasks, false);
    match frame.overlay {
        Some(Overlay::TodoPrompt { buffer }) => assert_eq!(buffer, "x"),
        other => panic!("expected the todo prompt, got {:?}", other),
    }
}

#[test]
fn render_shows_find_results_while_find_mode_is_set() {
    let tasks = sample_tasks(&["Hello", "Goodbye"]);
    let mut ctx = TuiContext::new();
    for ev in [ch('f'), ch('H'), key_event(KeyCode::Enter)] {
        ctx.try_handle_event(&TuiEvent::Terminal(Ok(ev)), &tasks, false).unwrap();
    }
    let frame = ctx.todolist.render(&tasks, false);
    assert_eq!(frame.rows.len(), 1);
    assert_eq!(frame.rows[0].title, "Hello");
}
