use kilomon::input::{InputEvent, KeyInput, MouseInput};
use kilomon::monitor::Monitor;
use kilomon::record::ProcessRecord;
use kilomon::sort_key::SortBy;

fn record(id: u32, name: &str, cpu: f32, memory_bytes: u64) -> ProcessRecord {
    ProcessRecord::new(id, name.to_string(), cpu.to_bits(), memory_bytes)
}

fn two() -> Vec<ProcessRecord> {
    vec![record(1, "a", 5.0, 1_000_000), record(2, "b", 80.0, 500_000)]
}

fn ids(monitor: &Monitor) -> Vec<u32> {
    monitor.app.processes.iter().map(|r| r.id).collect()
}

const KEY_Q: InputEvent = InputEvent::Key(KeyInput::Char('q'));
const KEY_K: InputEvent = InputEvent::Key(KeyInput::Char('k'));
const KEY_S: InputEvent = InputEvent::Key(KeyInput::Char('s'));
const KEY_DOWN: InputEvent = InputEvent::Key(KeyInput::Down);
const KEY_UP: InputEvent = InputEvent::Key(KeyInput::Up);

#[test]
fn monitor_starts_running_and_sorted() {
    let monitor = Monitor::new(two(), 10);
    assert!(monitor.is_running());
    assert_eq!(ids(&monitor), vec![1, 2]);
    assert_eq!(monitor.app.sort_by, SortBy::Memory);
    assert_eq!(monitor.app.selected, None);
    assert_eq!(monitor.router.last_input_ms, 10);
    assert_eq!(monitor.scheduler.last_refresh_ms, 10);
    assert_eq!(monitor.poll_timeout(10), 1_000);
    assert_eq!(monitor.poll_timeout(310), 700);
}

#[test]
fn sort_by_cpu_then_walk_the_rows() {
    let mut monitor = Monitor::new(two(), 0);
    assert_eq!(monitor.handle_input(KEY_S, 100), None);
    assert_eq!(monitor.handle_input(KEY_S, 200), None);
    assert_eq!(monitor.handle_input(KEY_S, 300), None);
    assert_eq!(monitor.app.sort_by, SortBy::Cpu);
    assert_eq!(ids(&monitor), vec![2, 1]);
    assert_eq!(monitor.handle_input(KEY_DOWN, 400), None);
    assert_eq!(monitor.app.selected, Some(0));
    assert_eq!(monitor.app.processes[0].id, 2);
    assert_eq!(monitor.handle_input(KEY_DOWN, 500), None);
    assert_eq!(monitor.app.selected, Some(1));
    assert_eq!(monitor.app.processes[1].id, 1);
    assert_eq!(monitor.handle_input(KEY_DOWN, 600), None);
    assert_eq!(monitor.app.selected, Some(0));
}

#[test]
fn kill_key_names_the_selected_process_once() {
    let mut monitor = Monitor::new(two(), 0);
    assert_eq!(monitor.handle_input(KEY_DOWN, 100), None);
    assert_eq!(monitor.handle_input(KEY_DOWN, 200), None);
    assert_eq!(monitor.app.processes[1].id, 2);
    assert_eq!(monitor.handle_input(KEY_K, 300), Some(2));
    assert_eq!(ids(&monitor), vec![1, 2]);
    assert_eq!(monitor.app.selected, Some(1));
    assert!(monitor.is_running());
    assert_eq!(monitor.handle_input(KEY_K, 320), None);
}

#[test]
fn kill_key_without_selection_names_nothing() {
    let mut monitor = Monitor::new(two(), 0);
    assert_eq!(monitor.handle_input(KEY_K, 100), None);
    assert_eq!(ids(&monitor), vec![1, 2]);
}

#[test]
fn scrolling_moves_the_cursor() {
    let mut monitor = Monitor::new(two(), 0);
    assert_eq!(monitor.handle_input(InputEvent::Mouse(MouseInput::ScrollDown), 60), None);
    assert_eq!(monitor.app.selected, Some(0));
    assert_eq!(monitor.handle_input(InputEvent::Mouse(MouseInput::ScrollUp), 120), None);
    assert_eq!(monitor.app.selected, Some(1));
    assert_eq!(monitor.handle_input(InputEvent::Mouse(MouseInput::Other), 180), None);
    assert_eq!(monitor.app.selected, Some(1));
    assert_eq!(monitor.router.last_input_ms, 180);
}

#[test]
fn burst_of_keys_moves_the_cursor_once() {
    let mut monitor = Monitor::new(two(), 0);
    assert_eq!(monitor.handle_input(KEY_DOWN, 100), None);
    assert_eq!(monitor.handle_input(KEY_DOWN, 110), None);
    assert_eq!(monitor.handle_input(KEY_DOWN, 120), None);
    assert_eq!(monitor.app.selected, Some(0));
    assert_eq!(monitor.handle_input(KEY_UP, 150), None);
    assert_eq!(monitor.app.selected, Some(1));
}

#[test]
fn refresh_takes_the_snapshot_and_restarts_the_interval() {
    let mut monitor = Monitor::new(two(), 0);
    assert!(!monitor.refresh_due(999));
    assert!(monitor.refresh_due(1_200));
    monitor.refresh(vec![record(9, "z", 1.0, 1), record(8, "y", 1.0, 2)], 1_250);
    assert_eq!(ids(&monitor), vec![8, 9]);
    assert_eq!(monitor.scheduler.last_refresh_ms, 1_250);
    assert!(!monitor.refresh_due(1_250));
    assert!(!monitor.refresh_due(2_249));
    assert!(monitor.refresh_due(2_250));
    assert_eq!(monitor.poll_timeout(1_300), 950);
    assert_eq!(monitor.router.last_input_ms, 0);
}

#[test]
fn refresh_and_input_in_one_round_both_count() {
    let mut monitor = Monitor::new(two(), 0);
    assert_eq!(monitor.poll_timeout(1_000), 0);
    assert_eq!(monitor.handle_input(KEY_DOWN, 1_000), None);
    assert!(monitor.refresh_due(1_000));
    monitor.refresh(two(), 1_001);
    assert_eq!(monitor.app.selected, Some(0));
    assert_eq!(monitor.scheduler.last_refresh_ms, 1_001);
}

#[test]
fn quit_stops_the_monitor_for_good() {
    let mut monitor = Monitor::new(two(), 0);
    assert_eq!(monitor.handle_input(KEY_DOWN, 100), None);
    assert_eq!(monitor.handle_input(KEY_Q, 200), None);
    assert!(!monitor.is_running());
    assert!(!monitor.refresh_due(5_000));
    monitor.refresh(Vec::new(), 5_000);
    assert_eq!(ids(&monitor), vec![1, 2]);
    assert_eq!(monitor.scheduler.last_refresh_ms, 0);
    assert_eq!(monitor.handle_input(KEY_DOWN, 6_000), None);
    assert_eq!(monitor.handle_input(KEY_K, 7_000), None);
    assert_eq!(monitor.handle_input(KEY_S, 8_000), None);
    assert_eq!(monitor.app.selected, Some(0));
    assert_eq!(monitor.app.sort_by, SortBy::Memory);
    assert_eq!(monitor.router.last_input_ms, 200);
    assert!(!monitor.is_running());
}
