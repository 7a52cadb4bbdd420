use hwdash::screen::{Action, CategoryId, Key, Screen, ScreenStateMachine};
use hwdash::task::TaskState;

fn two_drives() -> Vec<String> {
    vec!["/dev/sda".to_string(), "/dev/sdb".to_string()]
}

#[test]
fn fresh_machine_shows_main_menu() {
    let sm = ScreenStateMachine::new();
    assert_eq!(sm.current_screen(), Screen::MainMenu);
    assert_eq!(sm.menu_selected(), 0);
}

#[test]
fn menu_navigation_clamps_at_both_ends() {
    let mut sm = ScreenStateMachine::new();
    sm.decrement_menu();
    assert_eq!(sm.menu_selected(), 0);
    for _ in 0..20 {
        sm.increment_menu();
    }
    assert_eq!(sm.menu_selected(), 8);
    sm.increment_menu();
    assert_eq!(sm.menu_selected(), 8);
    sm.decrement_menu();
    assert_eq!(sm.menu_selected(), 7);
}

#[test]
fn enter_on_disk_entry_opens_selection_and_asks_for_enumeration() {
    let mut sm = ScreenStateMachine::new();
    let a = sm.dispatch(Key::Enter, 0);
    assert!(matches!(a, Action::Refresh(CategoryId::Disk)));
    assert_eq!(sm.current_screen(), Screen::Selecting(CategoryId::Disk));
    let snap = sm.snapshot(CategoryId::Disk);
    assert!(snap.entries.is_empty());
}

#[test]
fn enter_on_exit_entry_quits() {
    let mut sm = ScreenStateMachine::new();
    for _ in 0..8 {
        sm.increment_menu();
    }
    let a = sm.dispatch(Key::Enter, 0);
    assert!(matches!(a, Action::QuitApp));
    assert_eq!(sm.current_screen(), Screen::MainMenu);
}

#[test]
fn cancel_at_main_menu_quits() {
    let mut sm = ScreenStateMachine::new();
    let a = sm.dispatch(Key::Cancel, 0);
    assert!(matches!(a, Action::QuitApp));
}

#[test]
fn run_and_finish_reports_success() {
    // enumeration returns two drives; selecting index 1 and running; the
    // worker reports progress 0, 50, 100 and output "PASSED"
    let mut sm = ScreenStateMachine::new();
    let a = sm.dispatch(Key::Enter, 0);
    assert!(matches!(a, Action::Refresh(CategoryId::Disk)));
    sm.set_category_items(CategoryId::Disk, two_drives());
    sm.dispatch(Key::Down, 0);
    let a = sm.dispatch(Key::Enter, 7);
    match a {
        Action::Start(CategoryId::Disk, sel) => assert_eq!(sel, "/dev/sdb"),
        other => panic!("expected a start action, got {:?}", other),
    }
    assert_eq!(sm.current_screen(), Screen::Running(CategoryId::Disk));
    sm.worker_progress(CategoryId::Disk, 0);
    sm.worker_progress(CategoryId::Disk, 50);
    sm.worker_progress(CategoryId::Disk, 100);
    sm.worker_output(CategoryId::Disk, "PASSED");
    sm.worker_finished(CategoryId::Disk, Ok("done".to_string()));
    assert_eq!(sm.current_screen(), Screen::Viewing(CategoryId::Disk));
    let snap = sm.snapshot(CategoryId::Disk);
    assert_eq!(snap.task_state, TaskState::Succeeded);
    assert_eq!(snap.progress, 100);
    assert!(snap.output.contains("PASSED"));
}

#[test]
fn enter_with_empty_list_spawns_nothing() {
    // enumeration returns no entries: Enter produces no task and no
    // screen transition
    let mut sm = ScreenStateMachine::new();
    sm.dispatch(Key::Enter, 0);
    sm.set_category_items(CategoryId::Disk, Vec::new());
    let a = sm.dispatch(Key::Enter, 3);
    assert!(matches!(a, Action::Nothing));
    assert_eq!(sm.current_screen(), Screen::Selecting(CategoryId::Disk));
    let snap = sm.snapshot(CategoryId::Disk);
    assert_eq!(snap.task_state, TaskState::Idle);
}

#[test]
fn failed_start_reaches_viewing_with_the_error() {
    // the external run cannot start: the task fails with the error text
    // and the screen still reaches the viewing state
    let mut sm = ScreenStateMachine::new();
    sm.dispatch(Key::Enter, 0);
    sm.set_category_items(CategoryId::Disk, two_drives());
    sm.dispatch(Key::Enter, 1);
    sm.worker_finished(CategoryId::Disk, Err("binary not found".to_string()));
    assert_eq!(sm.current_screen(), Screen::Viewing(CategoryId::Disk));
    let snap = sm.snapshot(CategoryId::Disk);
    assert_eq!(snap.task_state, TaskState::Failed);
    assert!(snap.message.contains("binary not found"));
    assert_eq!(snap.progress, 100);
}

#[test]
fn cancel_from_running_returns_to_menu_and_resets_task() {
    let mut sm = ScreenStateMachine::new();
    sm.dispatch(Key::Enter, 0);
    sm.set_category_items(CategoryId::Disk, two_drives());
    sm.dispatch(Key::Enter, 1);
    assert_eq!(sm.current_screen(), Screen::Running(CategoryId::Disk));
    let a = sm.dispatch(Key::Cancel, 2);
    assert!(matches!(a, Action::Nothing));
    assert_eq!(sm.current_screen(), Screen::MainMenu);
    let snap = sm.snapshot(CategoryId::Disk);
    assert_eq!(snap.task_state, TaskState::Idle);
    assert_eq!(snap.scroll, 0);
}

#[test]
fn cancel_from_viewing_returns_to_menu_and_resets_task() {
    let mut sm = ScreenStateMachine::new();
    sm.dispatch(Key::Enter, 0);
    sm.set_category_items(CategoryId::Disk, two_drives());
    sm.dispatch(Key::Enter, 1);
    sm.worker_finished(CategoryId::Disk, Ok("done".to_string()));
    assert_eq!(sm.current_screen(), Screen::Viewing(CategoryId::Disk));
    sm.dispatch(Key::Cancel, 2);
    assert_eq!(sm.current_screen(), Screen::MainMenu);
    assert_eq!(sm.snapshot(CategoryId::Disk).task_state, TaskState::Idle);
}

#[test]
fn late_reports_after_cancel_are_never_observed() {
    let mut sm = ScreenStateMachine::new();
    sm.dispatch(Key::Enter, 0);
    sm.set_category_items(CategoryId::Disk, two_drives());
    sm.dispatch(Key::Enter, 1);
    sm.dispatch(Key::Cancel, 2);
    sm.worker_progress(CategoryId::Disk, 80);
    sm.worker_output(CategoryId::Disk, "late");
    sm.worker_finished(CategoryId::Disk, Ok("late".to_string()));
    assert_eq!(sm.current_screen(), Screen::MainMenu);
    let snap = sm.snapshot(CategoryId::Disk);
    assert_eq!(snap.task_state, TaskState::Idle);
    assert_eq!(snap.progress, 0);
    assert!(snap.output.is_empty());
}

#[test]
fn reentry_always_shows_the_fresh_enumeration() {
    // stale entries never survive an exit and re-entry
    let mut sm = ScreenStateMachine::new();
    sm.dispatch(Key::Enter, 0);
    sm.set_category_items(CategoryId::Disk, two_drives());
    sm.dispatch(Key::Cancel, 0);
    assert!(sm.snapshot(CategoryId::Disk).entries.is_empty());
    sm.dispatch(Key::Enter, 0);
    assert!(sm.snapshot(CategoryId::Disk).entries.is_empty());
    sm.set_category_items(CategoryId::Disk, vec!["/dev/sdc".to_string()]);
    assert_eq!(sm.snapshot(CategoryId::Disk).entries, vec!["/dev/sdc".to_string()]);
}

#[test]
fn selection_moves_are_clamped_in_selecting() {
    let mut sm = ScreenStateMachine::new();
    sm.dispatch(Key::Enter, 0);
    sm.set_category_items(CategoryId::Disk, two_drives());
    sm.dispatch(Key::Up, 0);
    assert_eq!(sm.snapshot(CategoryId::Disk).selected, 0);
    sm.dispatch(Key::Down, 0);
    sm.dispatch(Key::Down, 0);
    sm.dispatch(Key::Down, 0);
    assert_eq!(sm.snapshot(CategoryId::Disk).selected, 1);
}

#[test]
fn viewing_scrolls_with_j_and_k() {
    let mut sm = ScreenStateMachine::new();
    sm.dispatch(Key::Enter, 0);
    sm.set_category_items(CategoryId::Disk, two_drives());
    sm.dispatch(Key::Enter, 1);
    sm.worker_finished(CategoryId::Disk, Ok("done".to_string()));
    sm.dispatch(Key::ScrollUp, 0);
    assert_eq!(sm.snapshot(CategoryId::Disk).scroll, 0);
    sm.dispatch(Key::ScrollDown, 0);
    sm.dispatch(Key::ScrollDown, 0);
    assert_eq!(sm.snapshot(CategoryId::Disk).scroll, 2);
    sm.dispatch(Key::ScrollUp, 0);
    assert_eq!(sm.snapshot(CategoryId::Disk).scroll, 1);
}

#[test]
fn photo_entry_starts_at_once() {
    let mut sm = ScreenStateMachine::new();
    for _ in 0..3 {
        sm.increment_menu();
    }
    let a = sm.dispatch(Key::Enter, 9);
    match a {
        Action::Start(CategoryId::PhotoExport, sel) => assert!(sel.is_empty()),
        other => panic!("expected a start action, got {:?}", other),
    }
    assert_eq!(sm.current_screen(), Screen::Running(CategoryId::PhotoExport));
    assert_eq!(sm.snapshot(CategoryId::PhotoExport).task_state, TaskState::Running);
}

#[test]
fn stress_key_starts_the_stress_test_from_the_menu() {
    let mut sm = ScreenStateMachine::new();
    let a = sm.dispatch(Key::Stress, 4);
    assert!(matches!(a, Action::Start(CategoryId::Stress, _)));
    assert_eq!(sm.current_screen(), Screen::Running(CategoryId::Stress));
    assert!(sm.check_stress_active());
    sm.stop_stress_test();
    assert_eq!(sm.current_screen(), Screen::MainMenu);
    assert!(!sm.check_stress_active());
}

#[test]
fn stability_key_runs_detached() {
    let mut sm = ScreenStateMachine::new();
    let a = sm.dispatch(Key::Stability, 4);
    assert!(matches!(a, Action::RunStability));
    assert_eq!(sm.current_screen(), Screen::MainMenu);
}

#[test]
fn driver_entry_opens_on_the_fixed_package_list() {
    let mut sm = ScreenStateMachine::new();
    for _ in 0..4 {
        sm.increment_menu();
    }
    let a = sm.dispatch(Key::Enter, 0);
    assert!(matches!(a, Action::Nothing));
    assert_eq!(sm.current_screen(), Screen::Selecting(CategoryId::DriverInstall));
    let snap = sm.snapshot(CategoryId::DriverInstall);
    assert_eq!(snap.entries.len(), 5);
    assert_eq!(snap.entries[0], "nvidia");
    assert_eq!(snap.entries[4], "nvidia-470xx-dkms");
}

#[test]
fn worker_progress_never_moves_backward() {
    let mut sm = ScreenStateMachine::new();
    sm.dispatch(Key::Enter, 0);
    sm.set_category_items(CategoryId::Disk, two_drives());
    sm.dispatch(Key::Enter, 1);
    sm.worker_progress(CategoryId::Disk, 60);
    sm.worker_progress(CategoryId::Disk, 30);
    assert_eq!(sm.snapshot(CategoryId::Disk).progress, 60);
    sm.worker_progress(CategoryId::Disk, 61);
    assert_eq!(sm.snapshot(CategoryId::Disk).progress, 61);
}

#[test]
fn menu_enter_helper_acts_like_the_enter_key() {
    let mut sm = ScreenStateMachine::new();
    let a = sm.handle_main_menu_enter(0);
    assert!(matches!(a, Action::Refresh(CategoryId::Disk)));
    assert_eq!(sm.current_screen(), Screen::Selecting(CategoryId::Disk));
    let a = sm.handle_main_menu_enter(0);
    assert!(matches!(a, Action::Nothing));
}

#[test]
fn drive_screen_run_alias_shares_the_path() {
    let mut sm = ScreenStateMachine::new();
    sm.enter_disk_selection(two_drives());
    let picked = sm.run_smart_test_on_selected_drive(0);
    assert_eq!(picked.unwrap(), "/dev/sda");
    assert_eq!(sm.current_screen(), Screen::Running(CategoryId::Disk));
}
