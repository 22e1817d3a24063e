use kilomon::app::App;
use kilomon::input::Command;
use kilomon::record::ProcessRecord;
use kilomon::sort_key::SortBy;

fn record(id: u32, name: &str, cpu: f32, memory_bytes: u64) -> ProcessRecord {
    ProcessRecord::new(id, name.to_string(), cpu.to_bits(), memory_bytes)
}

fn app() -> App {
    App::new(vec![record(1, "a", 5.0, 1_000_000), record(2, "b", 80.0, 500_000)])
}

#[test]
fn quit_clears_the_running_flag_only() {
    let mut app = app();
    app.next();
    assert_eq!(app.dispatch(Command::Quit), None);
    assert!(!app.running);
    assert_eq!(app.selected, Some(0));
    assert_eq!(app.sort_by, SortBy::Memory);
    assert_eq!(app.processes.len(), 2);
}

#[test]
fn moves_change_the_selection_only() {
    let mut app = app();
    assert_eq!(app.dispatch(Command::MoveDown), None);
    assert_eq!(app.selected, Some(0));
    assert_eq!(app.dispatch(Command::MoveUp), None);
    assert_eq!(app.selected, Some(1));
    assert!(app.running);
    assert_eq!(app.sort_by, SortBy::Memory);
}

#[test]
fn toggle_changes_key_and_order() {
    let mut app = app();
    assert_eq!(app.dispatch(Command::ToggleSort), None);
    assert_eq!(app.sort_by, SortBy::Pid);
    assert_eq!(app.processes[0].id, 2);
    assert_eq!(app.processes[1].id, 1);
}

#[test]
fn kill_returns_the_target_and_changes_nothing() {
    let mut app = app();
    assert_eq!(app.dispatch(Command::KillSelected), None);
    app.selected = Some(1);
    assert_eq!(app.dispatch(Command::KillSelected), Some(2));
    assert_eq!(app.selected, Some(1));
    assert_eq!(app.processes.len(), 2);
    assert!(app.running);
    app.selected = Some(2);
    assert_eq!(app.dispatch(Command::KillSelected), None);
}
