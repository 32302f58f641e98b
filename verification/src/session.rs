//! The controller session: event loop decisions and ordered teardown.
//!
//! One hidden event window receives every dispatched message. The platform
//! layer blocks retrieving the next message, lets the library decide what
//! the message means, performs the returned plan, and repeats until the
//! quit signal ends retrieval. Teardown then releases every owned resource
//! exactly once, in a fixed order, going on past failures.

use vstd::prelude::*;

use crate::binding::BindingRegistry;
use crate::process::VolumeMixerProcess;
use crate::tray::{classify_message, VolumeMixerTrayIcon, WndProcDecision, MSG_ID,
    WM_RBUTTONDOWN};

verus! {

/// What the event loop does with one message-retrieval result.
pub enum LoopDecision {
    /// A message arrived: translate and dispatch it, then block again.
    TranslateAndDispatch,
    /// Retrieval signalled the quit condition: leave the loop and tear
    /// down.
    ExitLoop,
}

/// One release made during teardown.
pub enum TeardownStep {
    /// Remove the binding from the event window.
    Unbind,
    /// Remove the icon from the shell's notification area.
    DeregisterIcon,
    /// Destroy the hidden event window.
    DestroyEventWindow,
    /// Terminate a spawned process and close its handle; a no-op for an
    /// attached process the controller never owned.
    ReleaseProcess,
}

/// A teardown step together with the outcome of its platform call.
pub struct TeardownRecord {
    /// Which release was attempted.
    pub step: TeardownStep,
    /// Whether the platform accepted it. A failure is logged by the caller
    /// and never stops the remaining steps.
    pub succeeded: bool,
}

/// Outcomes of the platform calls teardown mirrors, one per step.
pub struct TeardownOutcomes {
    /// The property removal's outcome.
    pub unbind_accepted: bool,
    /// The shell icon removal's outcome.
    pub icon_removal_accepted: bool,
    /// The event-window destruction's outcome.
    pub window_destroy_accepted: bool,
    /// The process termination's outcome, read only for a spawned process.
    pub terminate_accepted: bool,
}

/// The running controller: the supervised process, the binding on the
/// event window, the tray icon, and the loop's quit flag.
pub struct Session {
    /// The supervised volume-mixer process.
    pub process: VolumeMixerProcess,
    /// The binding stored against the event window.
    pub registry: BindingRegistry,
    /// The notification-area icon.
    pub tray: VolumeMixerTrayIcon,
    /// Whether the hidden event window still exists.
    pub event_window_alive: bool,
    /// Whether the quit signal has been posted to the event loop.
    pub quit_posted: bool,
}

/// The session a right click leaves behind: the same state with the quit
/// signal posted.
pub open spec fn after_right_click(s: Session) -> Session {
    Session { quit_posted: true, ..s }
}

/// Law: a right click on the tray icon is classified as such and posts the
/// quit signal in every session state — whatever the binding, the icon
/// registration or the process ownership hold.
pub proof fn lemma_right_click_always_quits(s: Session)
    ensures
        classify_message(MSG_ID, WM_RBUTTONDOWN) == WndProcDecision::RightClick,
        after_right_click(s).quit_posted,
        after_right_click(s).registry == s.registry,
        after_right_click(s).process == s.process,
        after_right_click(s).tray == s.tray,
{
}

impl Session {
    /// A fresh session around the acquired process, its binding and the
    /// tray icon, with the event loop still running.
    pub fn new(
        process: VolumeMixerProcess,
        registry: BindingRegistry,
        tray: VolumeMixerTrayIcon,
    ) -> (r: Session)
        ensures
            r.process == process,
            r.registry == registry,
            r.tray == tray,
            r.event_window_alive,
            !r.quit_posted,
    {
        Session { process, registry, tray, event_window_alive: true, quit_posted: false }
    }

    /// A right click posts the quit signal, regardless of the binding
    /// state: even a session whose binding lookup would fail terminates.
    pub fn on_right_mouse_pressed(&mut self)
        ensures
            *final(self) == after_right_click(*old(self)),
            final(self).quit_posted,
    {
        self.quit_posted = true;
    }

    /// What the event loop does after one blocking message retrieval:
    /// dispatch while messages keep arriving, leave the loop once
    /// retrieval reports the quit condition (as it does after the quit
    /// signal was posted).
    pub fn event_loop_step(message_retrieved: bool) -> (d: LoopDecision)
        ensures
            message_retrieved ==> d == LoopDecision::TranslateAndDispatch,
            !message_retrieved ==> d == LoopDecision::ExitLoop,
    {
        if message_retrieved {
            LoopDecision::TranslateAndDispatch
        } else {
            LoopDecision::ExitLoop
        }
    }

    /// Tear the session down: unbind, then deregister the icon, then
    /// destroy the event window, then release the process handle — every
    /// release attempted exactly once, in that order, even when an earlier
    /// one failed.
    ///
    /// The returned log names the four steps in order with each platform
    /// outcome; the release of an attached process is the harmless no-op
    /// the sentinel handle makes of it and counts as succeeded.
    pub fn teardown(&mut self, outcomes: &TeardownOutcomes) -> (log: Vec<TeardownRecord>)
        ensures
            log@.len() == 4,
            log@[0].step == TeardownStep::Unbind,
            log@[1].step == TeardownStep::DeregisterIcon,
            log@[2].step == TeardownStep::DestroyEventWindow,
            log@[3].step == TeardownStep::ReleaseProcess,
            log@[0].succeeded == outcomes.unbind_accepted,
            log@[1].succeeded == outcomes.icon_removal_accepted,
            log@[2].succeeded == outcomes.window_destroy_accepted,
            log@[3].succeeded == (if old(self).process.owns_process_handle() {
                outcomes.terminate_accepted
            } else {
                true
            }),
            final(self).registry.binding is None,
            !final(self).tray.registered,
            !final(self).event_window_alive,
            !final(self).process.owns_process_handle(),
            final(self).process.pid == old(self).process.pid,
            final(self).process.hwnd == old(self).process.hwnd,
            final(self).quit_posted == old(self).quit_posted,
    {
        let mut log: Vec<TeardownRecord> = Vec::new();
        let unbind_ok = self.registry.unbind(outcomes.unbind_accepted);
        log.push(TeardownRecord { step: TeardownStep::Unbind, succeeded: unbind_ok });
        self.tray.deregister();
        log.push(TeardownRecord {
            step: TeardownStep::DeregisterIcon,
            succeeded: outcomes.icon_removal_accepted,
        });
        self.event_window_alive = false;
        log.push(TeardownRecord {
            step: TeardownStep::DestroyEventWindow,
            succeeded: outcomes.window_destroy_accepted,
        });
        let released = self.process.release_process_handle();
        let release_ok = match released {
            Some(_) => outcomes.terminate_accepted,
            None => true,
        };
        log.push(TeardownRecord { step: TeardownStep::ReleaseProcess, succeeded: release_ok });
        log
    }
}

} // verus!
