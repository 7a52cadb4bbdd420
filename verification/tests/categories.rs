use hwdash::screen::{CategoryId, Key, Screen, ScreenStateMachine};
use hwdash::task::TaskState;
use hwdash::gpu_detect::{detect_gpu_type, GpuSelection, GpuType};
use hwdash::gpu_test::{GpuTestState, TestMode};
use hwdash::nvidia_drivers::{get_driver_list, install_banner, step_log_entry, step_progress};
use hwdash::amd_gpu::{gpu_failure_message, gpu_output_header};
use hwdash::audio_test::audio_start_message;
use hwdash::gamepad_test::{gamepad_run_message, is_gamepad_line};
use hwdash::keyboard_test::is_keyboard_line;
use hwdash::photo_exporter::{export_complete_message, export_failure_message};

#[test]
fn smart_screens_enter_navigate_run_and_exit() {
    let mut sm = ScreenStateMachine::new();
    sm.enter_disk_selection(vec!["/dev/sda".to_string(), "/dev/sdb".to_string()]);
    assert!(sm.check_disk_select());
    assert!(sm.check_smart_disk_select());
    assert!(sm.check_disk_selection_active());
    assert!(!sm.check_smart_active());
    sm.increment_disk_selection();
    assert_eq!(sm.get_selected_drive_index(), 1);
    sm.next_drive();
    assert_eq!(sm.get_selected_drive_index(), 1);
    sm.previous_drive();
    sm.decrement_disk_selection();
    assert_eq!(sm.get_selected_drive_index(), 0);
    assert_eq!(sm.get_drive_list(), vec!["/dev/sda".to_string(), "/dev/sdb".to_string()]);
    let picked = sm.run_selected_smart(3);
    assert_eq!(picked.unwrap(), "/dev/sda");
    assert!(sm.check_smart_active());
    sm.worker_finished(CategoryId::Disk, Ok("ok".to_string()));
    sm.scroll_output_down();
    sm.scroll_down();
    assert_eq!(sm.snapshot(CategoryId::Disk).scroll, 2);
    sm.scroll_output_up();
    sm.scroll_up();
    assert_eq!(sm.snapshot(CategoryId::Disk).scroll, 0);
    sm.exit_smart_output();
    assert!(!sm.check_smart_active());
    assert_eq!(sm.current_screen(), Screen::MainMenu);
}

#[test]
fn disk_selection_exit_is_mode_specific() {
    let mut sm = ScreenStateMachine::new();
    sm.enter_disk_selection(vec!["/dev/sda".to_string()]);
    sm.exit_smart_output();
    assert!(sm.check_disk_select());
    sm.exit_disk_selection();
    assert!(!sm.check_disk_select());
    assert_eq!(sm.current_screen(), Screen::MainMenu);
}

#[test]
fn run_selected_disk_smart_shares_the_run_path() {
    let mut sm = ScreenStateMachine::new();
    sm.enter_disk_selection(vec!["/dev/sda".to_string()]);
    let picked = sm.run_selected_disk_smart(0);
    assert_eq!(picked.unwrap(), "/dev/sda");
    assert_eq!(sm.current_screen(), Screen::Running(CategoryId::Disk));
}

#[test]
fn gpu_screens_enter_navigate_run_and_exit() {
    let mut sm = ScreenStateMachine::new();
    sm.enter_gpu_selection();
    assert!(sm.check_gpu_select());
    assert!(!sm.check_amd_active());
    let snap = sm.snapshot(CategoryId::Gpu);
    assert_eq!(snap.entries, vec!["MSI AMD Radeon RX 7700 XT".to_string()]);
    sm.increment_gpu_selection();
    assert_eq!(sm.snapshot(CategoryId::Gpu).selected, 0);
    sm.decrement_gpu_selection();
    let picked = sm.run_selected_gpu_check(0);
    assert_eq!(picked.unwrap(), "MSI AMD Radeon RX 7700 XT");
    assert!(sm.check_amd_active());
    sm.worker_finished(CategoryId::Gpu, Ok("checked".to_string()));
    sm.exit_amd_output();
    assert!(!sm.check_amd_active());
    assert_eq!(sm.current_screen(), Screen::MainMenu);
    sm.enter_gpu_selection();
    sm.exit_gpu_selection();
    assert_eq!(sm.current_screen(), Screen::MainMenu);
}

#[test]
fn driver_screens_enter_navigate_install_and_reset() {
    let mut sm = ScreenStateMachine::new();
    sm.enter_driver_selection();
    assert!(sm.check_driver_selection());
    assert!(sm.check_driver_select());
    assert!(!sm.check_driver_installing());
    sm.increment_driver_selection_menu();
    sm.increment_driver_selection();
    assert_eq!(sm.get_driver_index(), 2);
    sm.decrement_driver_selection_menu();
    sm.decrement_driver_selection();
    assert_eq!(sm.get_driver_index(), 0);
    sm.increment_driver_selection();
    let picked = sm.install_selected_driver(0);
    assert_eq!(picked.unwrap(), "nvidia-dkms");
    assert!(sm.check_driver_installing());
    sm.reset_driver_state();
    assert!(!sm.check_driver_installing());
    assert_eq!(sm.current_screen(), Screen::MainMenu);
    sm.enter_driver_selection();
    let picked = sm.install_selected_driver_menu(0);
    assert_eq!(picked.unwrap(), "nvidia");
    sm.exit_driver_selection_menu();
    assert_eq!(sm.current_screen(), Screen::MainMenu);
}

#[test]
fn input_tests_route_to_the_active_category() {
    let mut sm = ScreenStateMachine::new();
    assert!(!sm.check_input_select());
    sm.enter_keyboard_test(vec!["kbd one".to_string(), "kbd two".to_string()]);
    assert!(sm.check_keyboard_test_active());
    assert!(sm.check_input_select());
    sm.increment_input_selection();
    assert_eq!(sm.snapshot(CategoryId::Keyboard).selected, 1);
    sm.decrement_input_selection();
    assert_eq!(sm.snapshot(CategoryId::Keyboard).selected, 0);
    sm.increment_device_selection();
    assert_eq!(sm.snapshot(CategoryId::Keyboard).selected, 1);
    sm.decrement_device_selection();
    sm.exit_input_selection();
    assert!(!sm.check_keyboard_test_active());
    assert_eq!(sm.current_screen(), Screen::MainMenu);
}

#[test]
fn gamepad_test_runs_on_the_selected_device() {
    let mut sm = ScreenStateMachine::new();
    sm.enter_gamepad_test(vec!["pad".to_string()]);
    assert!(sm.check_gamepad_test_active());
    let picked = sm.run_gamepad_test(0);
    assert_eq!(picked.unwrap(), "pad");
    sm.worker_finished(CategoryId::Gamepad, Ok(gamepad_run_message("pad")));
    let snap = sm.snapshot(CategoryId::Gamepad);
    assert!(snap.message.starts_with("Running test on: pad"));
    sm.exit_gamepad_test();
    assert!(!sm.check_gamepad_test_active());
}

#[test]
fn keyboard_exit_without_entry_changes_nothing() {
    let mut sm = ScreenStateMachine::new();
    sm.exit_keyboard_test();
    assert_eq!(sm.current_screen(), Screen::MainMenu);
}

#[test]
fn audio_test_uses_the_fixed_outputs() {
    let mut sm = ScreenStateMachine::new();
    sm.enter_audio_test();
    assert!(sm.check_audio_test_active());
    let snap = sm.snapshot(CategoryId::Audio);
    assert_eq!(snap.entries, vec!["Speakers".to_string(), "Headphones".to_string()]);
    sm.increment_device_selection();
    let picked = sm.run_audio_test(0);
    assert_eq!(picked.unwrap(), "Headphones");
    sm.exit_audio_test();
    assert!(!sm.check_audio_test_active());
}

#[test]
fn photo_export_runs_and_exits() {
    let mut sm = ScreenStateMachine::new();
    sm.run_photo_exporter(11);
    assert!(sm.check_export_active());
    sm.worker_progress(CategoryId::PhotoExport, 100);
    sm.worker_finished(CategoryId::PhotoExport, Ok(export_complete_message("3 files")));
    let snap = sm.snapshot(CategoryId::PhotoExport);
    assert_eq!(snap.task_state, TaskState::Succeeded);
    assert_eq!(snap.message, "Photo export complete.\n3 files");
    sm.exit_export();
    assert!(!sm.check_export_active());
    assert_eq!(sm.current_screen(), Screen::MainMenu);
}

#[test]
fn entering_a_category_closes_the_one_before_it() {
    let mut sm = ScreenStateMachine::new();
    sm.enter_disk_selection(vec!["/dev/sda".to_string()]);
    sm.enter_gpu_selection();
    assert!(!sm.check_disk_select());
    assert!(sm.check_gpu_select());
    assert!(sm.snapshot(CategoryId::Disk).entries.is_empty());
}

#[test]
fn gpu_selection_remembers_the_chosen_card() {
    let mut sel = GpuSelection::new();
    assert_eq!(sel.get_selected_gpu(), "");
    sel.set_selected_gpu("RX 7700 XT".to_string());
    assert_eq!(sel.get_selected_gpu(), "RX 7700 XT");
}

#[test]
fn gpu_type_is_read_off_the_pci_listing() {
    assert_eq!(
        detect_gpu_type(b"01:00.0 VGA compatible controller: Advanced Micro Devices AMD Radeon"),
        GpuType::AMD,
    );
    assert_eq!(detect_gpu_type(b"01:00.0 VGA controller: ATI Technologies"), GpuType::AMD);
    assert_eq!(detect_gpu_type(b"01:00.0 VGA: NVIDIA GeForce RTX"), GpuType::Nvidia);
    // `Corporation` carries `ati`, so a full NVIDIA vendor line still
    // classifies as AMD; the vendor keywords are checked in that order
    assert_eq!(detect_gpu_type(b"01:00.0 VGA: NVIDIA Corporation"), GpuType::AMD);
    assert_eq!(detect_gpu_type(b"01:00.0 VGA: Matrox"), GpuType::Unknown);
    assert_eq!(detect_gpu_type(b""), GpuType::Unknown);
}

#[test]
fn gpu_test_mode_starts_exactly_once() {
    let mut t = GpuTestState::new();
    assert!(!t.check_test_active());
    assert!(t.take_pending_start().is_none());
    t.set_test_mode(TestMode::Stress);
    assert!(t.check_test_active());
    assert_eq!(t.take_pending_start(), Some(TestMode::Stress));
    assert!(t.take_pending_start().is_none());
    t.clear_test_mode();
    assert!(!t.check_test_active());
    t.set_test_mode(TestMode::Stability);
    assert_eq!(t.take_pending_start(), Some(TestMode::Stability));
}

#[test]
fn driver_list_is_the_fixed_five_packages() {
    let list = get_driver_list();
    assert_eq!(
        list,
        vec![
            "nvidia".to_string(),
            "nvidia-dkms".to_string(),
            "nvidia-open-dkms".to_string(),
            "nvidia-lts".to_string(),
            "nvidia-470xx-dkms".to_string(),
        ],
    );
}

#[test]
fn install_progress_splits_evenly_and_ends_at_hundred() {
    assert_eq!(step_progress(0, 3), 33);
    assert_eq!(step_progress(1, 3), 66);
    assert_eq!(step_progress(2, 3), 100);
    assert_eq!(step_progress(0, 1), 100);
}

#[test]
fn status_lines_carry_their_arguments() {
    assert_eq!(install_banner("nvidia-dkms"), "Installing NVIDIA driver: nvidia-dkms\n");
    assert_eq!(step_log_entry(true, "cmd one", "out\n"), "[ok] cmd one\nout\n");
    assert_eq!(step_log_entry(false, "cmd two", "boom"), "[failed] cmd two\nError: boom\n");
    assert_eq!(gpu_output_header("card", "busy 5%"), "Testing GPU: card\nbusy 5%");
    assert_eq!(
        gpu_failure_message("card", "not found"),
        "Failed to run radeontop on card: not found",
    );
    assert_eq!(
        audio_start_message("Speakers"),
        "Starting test on: Speakers\n(Audio response test in development)",
    );
    assert_eq!(export_failure_message("no camera"), "Photo export failed: no camera");
}

#[test]
fn device_listing_filters_match_case_insensitively() {
    assert!(is_keyboard_line(b"Bus 001 Device 002: USB Keyboard"));
    assert!(is_keyboard_line(b"bus 001 device 002: usb KEYBOARD"));
    assert!(!is_keyboard_line(b"Bus 001 Device 003: Webcam"));
    assert!(is_gamepad_line(b"Bus 001 Device 004: Wireless Controller"));
    assert!(is_gamepad_line(b"Bus 001 Device 005: GamePad 2000"));
    assert!(is_gamepad_line(b"Bus 001 Device 006: Flight JOYSTICK"));
    assert!(!is_gamepad_line(b"Bus 001 Device 007: Hub"));
}
