use volume_mixer_tray::binding::{BindingError, BindingRegistry};
use volume_mixer_tray::process::VolumeMixerProcess;
use volume_mixer_tray::session::{
    LoopDecision, Session, TeardownOutcomes, TeardownStep,
};
use volume_mixer_tray::tray::VolumeMixerTrayIcon;

fn spawned_session() -> Session {
    let process = VolumeMixerProcess::from_new_process(55, 0x1234, 300);
    let mut registry = BindingRegistry::new(42);
    registry.bind(300, true).unwrap();
    let tray = VolumeMixerTrayIcon::new(42, true);
    Session::new(process, registry, tray)
}

fn attached_session() -> Session {
    let process = VolumeMixerProcess::from_running_process(44, 300);
    let mut registry = BindingRegistry::new(42);
    registry.bind(300, true).unwrap();
    let tray = VolumeMixerTrayIcon::new(42, true);
    Session::new(process, registry, tray)
}

fn all_accepted() -> TeardownOutcomes {
    TeardownOutcomes {
        unbind_accepted: true,
        icon_removal_accepted: true,
        window_destroy_accepted: true,
        terminate_accepted: true,
    }
}

fn step_order_is_kept(log: &[volume_mixer_tray::session::TeardownRecord]) {
    assert_eq!(log.len(), 4);
    assert!(matches!(log[0].step, TeardownStep::Unbind));
    assert!(matches!(log[1].step, TeardownStep::DeregisterIcon));
    assert!(matches!(log[2].step, TeardownStep::DestroyEventWindow));
    assert!(matches!(log[3].step, TeardownStep::ReleaseProcess));
}

#[test]
fn event_loop_dispatches_while_messages_arrive() {
    assert!(matches!(Session::event_loop_step(true), LoopDecision::TranslateAndDispatch));
    assert!(matches!(Session::event_loop_step(false), LoopDecision::ExitLoop));
}

#[test]
fn right_click_posts_quit() {
    let mut session = spawned_session();
    assert!(!session.quit_posted);
    session.on_right_mouse_pressed();
    assert!(session.quit_posted);
}

#[test]
fn right_click_quits_even_without_binding() {
    // Termination does not depend on the binding: a session whose lookup
    // would fail still quits on a right click.
    let process = VolumeMixerProcess::from_running_process(44, 300);
    let registry = BindingRegistry::new(42);
    let tray = VolumeMixerTrayIcon::new(42, true);
    let mut session = Session::new(process, registry, tray);
    assert!(matches!(session.registry.lookup(), Err(BindingError::BindingMissing)));
    session.on_right_mouse_pressed();
    assert!(session.quit_posted);
}

#[test]
fn teardown_runs_in_order() {
    let mut session = spawned_session();
    let log = session.teardown(&all_accepted());
    step_order_is_kept(&log);
    assert!(log.iter().all(|record| record.succeeded));
    assert!(matches!(session.registry.lookup(), Err(BindingError::BindingMissing)));
    assert!(!session.tray.registered);
    assert!(!session.event_window_alive);
}

#[test]
fn teardown_attempts_every_step_despite_failures() {
    // Early failures never cut the teardown short: all four releases are
    // still attempted, in order, exactly once.
    let mut session = spawned_session();
    let outcomes = TeardownOutcomes {
        unbind_accepted: false,
        icon_removal_accepted: false,
        window_destroy_accepted: true,
        terminate_accepted: true,
    };
    let log = session.teardown(&outcomes);
    step_order_is_kept(&log);
    assert!(!log[0].succeeded);
    assert!(!log[1].succeeded);
    assert!(log[2].succeeded);
    assert!(log[3].succeeded);
    assert!(!session.tray.registered);
    assert!(!session.event_window_alive);
}

#[test]
fn teardown_of_attached_process_terminates_nothing() {
    // The release step of a process this controller never spawned is the
    // harmless no-op of the sentinel handle, whatever the platform said.
    let mut session = attached_session();
    let outcomes = TeardownOutcomes { terminate_accepted: false, ..all_accepted() };
    let log = session.teardown(&outcomes);
    step_order_is_kept(&log);
    assert!(log[3].succeeded);
}

#[test]
fn teardown_reports_failed_termination_of_spawned_process() {
    let mut session = spawned_session();
    let outcomes = TeardownOutcomes { terminate_accepted: false, ..all_accepted() };
    let log = session.teardown(&outcomes);
    step_order_is_kept(&log);
    assert!(!log[3].succeeded);
}

#[test]
fn teardown_releases_the_process_handle_once() {
    let mut session = spawned_session();
    session.teardown(&all_accepted());
    // A second release attempt finds the handle already handed out.
    assert_eq!(session.process.release_process_handle(), None);
}
