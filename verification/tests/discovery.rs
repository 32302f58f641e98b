use volume_mixer_tray::handle::WindowsHandle;
use volume_mixer_tray::locator::{
    find_window_by_pattern_in_title, LocateStep, WindowInfo, WindowLocator,
};
use volume_mixer_tray::process::{
    AcquirePlan, LocateError, VolumeMixerProcess, MAX_LOCATE_ATTEMPTS,
};
use volume_mixer_tray::process_table::{get_pid_by_name, ProcessEntry};

fn entry(pid: u32, exe_file: &[u8]) -> ProcessEntry {
    ProcessEntry { pid, exe_file: exe_file.to_vec() }
}

fn window(hwnd: isize, pid: u32, title: &[u8]) -> WindowInfo {
    WindowInfo { hwnd, pid, title: title.to_vec() }
}

#[test]
fn get_pid_returns_first_match() {
    let table = vec![
        entry(11, b"explorer.exe\0\0"),
        entry(22, b"SndVol.exe\0\0\0"),
        entry(33, b"SndVol.exe"),
    ];
    let name = b"SndVol.exe".to_vec();
    assert_eq!(get_pid_by_name(&table, &name), Some(22));
}

#[test]
fn get_pid_reports_no_match() {
    let table = vec![entry(11, b"explorer.exe\0"), entry(12, b"notepad.exe\0")];
    let name = b"SndVol.exe".to_vec();
    assert_eq!(get_pid_by_name(&table, &name), None);
}

#[test]
fn get_pid_on_empty_table() {
    let table = Vec::new();
    let name = b"SndVol.exe".to_vec();
    assert_eq!(get_pid_by_name(&table, &name), None);
}

#[test]
fn is_running_sees_the_mixer() {
    let table = vec![entry(5, b"SndVol.exe\0")];
    assert!(VolumeMixerProcess::is_volume_mixer_running(&table));
    let empty = Vec::new();
    assert!(!VolumeMixerProcess::is_volume_mixer_running(&empty));
}

#[test]
fn acquire_plan_attaches_to_running_instance() {
    // An instance is already running: zero spawns, attach to its pid.
    let table = vec![entry(11, b"explorer.exe\0"), entry(44, b"SndVol.exe\0")];
    let plan = VolumeMixerProcess::acquire_plan(&table);
    assert!(matches!(plan, AcquirePlan::Attach(44)));
}

#[test]
fn acquire_plan_spawns_when_not_running() {
    // No instance is running: exactly one spawn is planned.
    let table = vec![entry(11, b"explorer.exe\0")];
    let plan = VolumeMixerProcess::acquire_plan(&table);
    assert!(matches!(plan, AcquirePlan::Spawn));
}

#[test]
fn find_window_first_in_enumeration_order_wins() {
    let windows = vec![
        window(100, 7, b"Volume Mixer - Speakers"),
        window(200, 7, b"Volume Mixer"),
    ];
    let pattern = b"Volume Mixer".to_vec();
    assert_eq!(find_window_by_pattern_in_title(&windows, &pattern, 7), Some(100));
}

#[test]
fn find_window_needs_matching_pid() {
    let windows = vec![window(100, 8, b"Volume Mixer")];
    let pattern = b"Volume Mixer".to_vec();
    assert_eq!(find_window_by_pattern_in_title(&windows, &pattern, 7), None);
}

#[test]
fn find_window_needs_pattern_in_title() {
    let windows = vec![window(100, 7, b"Task Manager")];
    let pattern = b"Volume Mixer".to_vec();
    assert_eq!(find_window_by_pattern_in_title(&windows, &pattern, 7), None);
}

#[test]
fn find_window_skips_other_processes_windows() {
    let windows = vec![
        window(100, 9, b"Volume Mixer"),
        window(200, 7, b"my Volume Mixer"),
    ];
    let pattern = b"Volume Mixer".to_vec();
    assert_eq!(find_window_by_pattern_in_title(&windows, &pattern, 7), Some(200));
}

#[test]
fn locator_never_sleeps_after_a_match() {
    let pattern = b"Volume Mixer".to_vec();
    let mut locator = WindowLocator::new(7, pattern, MAX_LOCATE_ATTEMPTS);
    let snapshot = vec![window(100, 7, b"Volume Mixer")];
    assert!(matches!(locator.attempt(&snapshot), LocateStep::Found(100)));
}

#[test]
fn locator_asks_for_retry_while_attempts_remain() {
    let pattern = b"Volume Mixer".to_vec();
    let mut locator = WindowLocator::new(7, pattern, 2);
    let empty = Vec::new();
    assert!(matches!(locator.attempt(&empty), LocateStep::SleepAndRetry));
    assert!(matches!(locator.attempt(&empty), LocateStep::GiveUp));
}

#[test]
fn discovery_finds_window_on_third_pass() {
    // The window shows up on the third enumeration pass: three passes,
    // one delay after each of the two failed ones, none after the match.
    let empty: Vec<WindowInfo> = Vec::new();
    let third = vec![window(300, 7, b"Volume Mixer")];
    let snapshots = vec![empty.clone(), empty.clone(), third, empty.clone(), empty];
    let run = VolumeMixerProcess::try_find_volume_mixer_window(7, &snapshots);
    assert_eq!(run.result.ok(), Some(300));
    assert_eq!(run.passes, 3);
    assert_eq!(run.sleeps, 2);
}

#[test]
fn discovery_finds_window_at_once() {
    let first = vec![window(300, 7, b"Volume Mixer")];
    let empty: Vec<WindowInfo> = Vec::new();
    let snapshots = vec![first, empty.clone(), empty.clone(), empty.clone(), empty];
    let run = VolumeMixerProcess::try_find_volume_mixer_window(7, &snapshots);
    assert_eq!(run.result.ok(), Some(300));
    assert_eq!(run.passes, 1);
    assert_eq!(run.sleeps, 0);
}

#[test]
fn discovery_gives_up_after_all_attempts() {
    // No pass ever shows the window: the full budget is spent and no
    // delay follows the last pass.
    let empty: Vec<WindowInfo> = Vec::new();
    let snapshots = vec![empty.clone(), empty.clone(), empty.clone(), empty.clone(), empty];
    let run = VolumeMixerProcess::try_find_volume_mixer_window(7, &snapshots);
    assert!(matches!(run.result, Err(LocateError::WindowNotFound)));
    assert_eq!(run.passes, MAX_LOCATE_ATTEMPTS);
    assert_eq!(run.sleeps, MAX_LOCATE_ATTEMPTS - 1);
}

#[test]
fn exec_path_appends_well_known_tail() {
    let windir = b"C:\\Windows".to_vec();
    let path = VolumeMixerProcess::construct_volume_mixer_exec_path(&windir);
    assert_eq!(&path[..], &b"C:\\Windows\\System32\\SndVol.exe"[..]);
}

#[test]
fn attached_process_hands_no_handle_out() {
    // Attaching never takes ownership: shutdown has nothing to terminate.
    let mut process = VolumeMixerProcess::from_running_process(44, 100);
    assert_eq!(process.pid, 44);
    assert_eq!(process.hwnd, 100);
    assert_eq!(process.release_process_handle(), None);
}

#[test]
fn spawned_process_hands_its_handle_out_once() {
    let mut process = VolumeMixerProcess::from_new_process(55, 0x1234, 100);
    assert_eq!(process.release_process_handle(), Some(0x1234));
    assert_eq!(process.release_process_handle(), None);
}

#[test]
fn handle_guard_releases_exactly_once() {
    let mut guard = WindowsHandle::from_raw_handle(0x42);
    assert!(guard.is_valid());
    assert_eq!(guard.take_for_release(), Some(0x42));
    assert_eq!(guard.take_for_release(), None);
}

#[test]
fn handle_guard_never_releases_sentinels() {
    let mut null_guard = WindowsHandle::from_raw_handle(0);
    assert!(!null_guard.is_valid());
    assert_eq!(null_guard.take_for_release(), None);
    let mut default_guard = WindowsHandle::default();
    assert!(!default_guard.is_valid());
    assert_eq!(default_guard.take_for_release(), None);
    assert_eq!(default_guard.as_raw_handle(), -1);
}
