//! Supervision of the volume-mixer process.
//!
//! At startup the controller either attaches to a volume-mixer process that
//! is already running — never taking ownership of its lifetime — or decides
//! to spawn a fresh one and owns the handle the platform layer hands back.
//! Either way it then discovers the process's window with the bounded retry
//! of [`crate::locator`], one enumeration snapshot per attempt.

use vstd::prelude::*;

use crate::handle::{WindowsHandle, INVALID_HANDLE_SENTINEL, NULL_HANDLE};
use crate::locator::{first_window_match, LocateStep, WindowInfo, WindowLocator};
use crate::process_table::{first_pid_match, get_pid_by_name, ProcessEntry};

verus! {

/// Total number of window-enumeration passes the discovery may make.
pub const MAX_LOCATE_ATTEMPTS: usize = 5;

/// Milliseconds the platform layer sleeps between two enumeration passes.
pub const RETRY_DELAY_MS: u64 = 250;

/// Executable base name of the volume mixer: "SndVol.exe" as bytes.
pub open spec fn volume_mixer_exec_name() -> Seq<u8> {
    seq![83u8, 110u8, 100u8, 86u8, 111u8, 108u8, 46u8, 101u8, 120u8, 101u8]
}

/// The executable base name as a vector.
pub fn volume_mixer_exec_name_vec() -> (r: Vec<u8>)
    ensures
        r@ == volume_mixer_exec_name(),
{
    let mut v: Vec<u8> = Vec::new();
    v.push(83);
    v.push(110);
    v.push(100);
    v.push(86);
    v.push(111);
    v.push(108);
    v.push(46);
    v.push(101);
    v.push(120);
    v.push(101);
    proof {
        assert(v@ =~= volume_mixer_exec_name());
    }
    v
}

/// Pattern the volume-mixer window title must contain: "Volume Mixer" as
/// bytes.
pub open spec fn volume_mixer_title_pattern() -> Seq<u8> {
    seq![86u8, 111u8, 108u8, 117u8, 109u8, 101u8, 32u8, 77u8, 105u8, 120u8, 101u8, 114u8]
}

/// The title pattern as a vector.
pub fn volume_mixer_title_pattern_vec() -> (r: Vec<u8>)
    ensures
        r@ == volume_mixer_title_pattern(),
{
    let mut v: Vec<u8> = Vec::new();
    v.push(86);
    v.push(111);
    v.push(108);
    v.push(117);
    v.push(109);
    v.push(101);
    v.push(32);
    v.push(77);
    v.push(105);
    v.push(120);
    v.push(101);
    v.push(114);
    proof {
        assert(v@ =~= volume_mixer_title_pattern());
    }
    v
}

/// Path tail appended to the system directory to reach the executable:
/// "\System32\SndVol.exe" as bytes.
pub open spec fn volume_mixer_exec_path_suffix() -> Seq<u8> {
    seq![
        92u8, 83u8, 121u8, 115u8, 116u8, 101u8, 109u8, 51u8, 50u8, 92u8, 83u8, 110u8,
        100u8, 86u8, 111u8, 108u8, 46u8, 101u8, 120u8, 101u8,
    ]
}

/// How the controller comes by its volume-mixer process.
pub enum AcquirePlan {
    /// An instance is already running under this process id: attach to it
    /// and spawn nothing.
    Attach(u32),
    /// No instance is running: spawn exactly one new process.
    Spawn,
}

/// The plan the process-table snapshot dictates: attach to the first
/// running instance, or spawn when there is none.
pub open spec fn acquire_plan_spec(table: Seq<ProcessEntry>) -> AcquirePlan {
    match first_pid_match(table, volume_mixer_exec_name()) {
        Some(pid) => AcquirePlan::Attach(pid),
        None => AcquirePlan::Spawn,
    }
}

/// Number of processes a plan spawns.
pub open spec fn spawn_count(plan: AcquirePlan) -> nat {
    match plan {
        AcquirePlan::Attach(_) => 0,
        AcquirePlan::Spawn => 1,
    }
}

/// Discovery failure after the full retry budget.
pub enum LocateError {
    /// No enumeration pass showed a matching window.
    WindowNotFound,
}

/// Outcome of a full bounded-retry discovery.
pub struct LocateRun {
    /// The discovered window handle, or the failure after all attempts.
    pub result: Result<isize, LocateError>,
    /// Enumeration passes made.
    pub passes: usize,
    /// Retry delays taken between passes.
    pub sleeps: usize,
}

/// The volume-mixer process under the controller's supervision.
pub struct VolumeMixerProcess {
    /// Process identifier.
    pub pid: u32,
    /// Handle of the discovered volume-mixer window.
    pub hwnd: isize,
    /// Guard around the owned process handle.
    pub hprocess: WindowsHandle,
}

impl VolumeMixerProcess {
    /// The controller owns the process's lifetime: it spawned the process
    /// and still owes the release of its handle.
    pub open spec fn owns_process_handle(&self) -> bool {
        self.hprocess.owes_release()
    }

    /// A supervised process from its parts.
    pub fn new(pid: u32, hwnd: isize, hprocess: WindowsHandle) -> (r: VolumeMixerProcess)
        ensures
            r.pid == pid,
            r.hwnd == hwnd,
            r.hprocess == hprocess,
    {
        VolumeMixerProcess { pid, hwnd, hprocess }
    }

    /// Attach to an instance that was already running. The controller does
    /// not own its lifetime: the handle guard holds only the sentinel, so
    /// shutdown never terminates a process this controller did not spawn.
    pub fn from_running_process(pid: u32, hwnd: isize) -> (r: VolumeMixerProcess)
        ensures
            r.pid == pid,
            r.hwnd == hwnd,
            !r.owns_process_handle(),
            r.hprocess.spec_raw() == INVALID_HANDLE_SENTINEL,
    {
        VolumeMixerProcess { pid, hwnd, hprocess: Default::default() }
    }

    /// Own a freshly spawned instance through the real process handle the
    /// platform layer got back from the creation call.
    pub fn from_new_process(pid: u32, process_handle: isize, hwnd: isize) -> (r:
        VolumeMixerProcess)
        requires
            process_handle != NULL_HANDLE,
            process_handle != INVALID_HANDLE_SENTINEL,
        ensures
            r.pid == pid,
            r.hwnd == hwnd,
            r.owns_process_handle(),
            r.hprocess.spec_raw() == process_handle,
    {
        VolumeMixerProcess { pid, hwnd, hprocess: WindowsHandle::from_raw_handle(process_handle) }
    }

    /// Hand the process handle out for release: the raw handle when this
    /// controller spawned the process and has not released it yet, nothing
    /// otherwise. The handle is released at most once, and an attached
    /// process is never handed out for termination.
    pub fn release_process_handle(&mut self) -> (r: Option<isize>)
        ensures
            final(self).pid == old(self).pid,
            final(self).hwnd == old(self).hwnd,
            !final(self).owns_process_handle(),
            r == (if old(self).owns_process_handle() {
                Some(old(self).hprocess.spec_raw())
            } else {
                Option::<isize>::None
            }),
    {
        self.hprocess.take_for_release()
    }

    /// Whether the process-table snapshot shows a running volume mixer.
    pub fn is_volume_mixer_running(table: &Vec<ProcessEntry>) -> (r: bool)
        ensures
            r == (first_pid_match(table@, volume_mixer_exec_name()) is Some),
    {
        let name = volume_mixer_exec_name_vec();
        get_pid_by_name(table, &name).is_some()
    }

    /// Decide from the process-table snapshot whether to attach or spawn.
    pub fn acquire_plan(table: &Vec<ProcessEntry>) -> (plan: AcquirePlan)
        ensures
            plan == acquire_plan_spec(table@),
    {
        let name = volume_mixer_exec_name_vec();
        match get_pid_by_name(table, &name) {
            Some(pid) => AcquirePlan::Attach(pid),
            None => AcquirePlan::Spawn,
        }
    }

    /// Discover the volume-mixer window of process `pid` with the bounded
    /// retry, one enumeration snapshot per pass.
    ///
    /// The run makes at most [`MAX_LOCATE_ATTEMPTS`] passes. A successful
    /// pass ends the run at once, with one retry delay for each failed pass
    /// before it and none after it; only a run that fails every pass takes
    /// the full budget.
    pub fn try_find_volume_mixer_window(pid: u32, snapshots: &Vec<Vec<WindowInfo>>) -> (run:
        LocateRun)
        requires
            snapshots@.len() == MAX_LOCATE_ATTEMPTS,
        ensures
            1 <= run.passes <= MAX_LOCATE_ATTEMPTS,
            run.result matches Ok(hwnd) ==> {
                &&& first_window_match(
                    snapshots@[run.passes - 1]@,
                    pid,
                    volume_mixer_title_pattern(),
                ) == Some(hwnd)
                &&& forall|k: int|
                    0 <= k < run.passes - 1 ==> first_window_match(
                        snapshots@[k]@,
                        pid,
                        volume_mixer_title_pattern(),
                    ) is None
                &&& run.sleeps == run.passes - 1
            },
            run.result is Err ==> {
                &&& run.passes == MAX_LOCATE_ATTEMPTS
                &&& run.sleeps == MAX_LOCATE_ATTEMPTS - 1
                &&& forall|k: int|
                    0 <= k < MAX_LOCATE_ATTEMPTS ==> first_window_match(
                        snapshots@[k]@,
                        pid,
                        volume_mixer_title_pattern(),
                    ) is None
            },
    {
        let pattern = volume_mixer_title_pattern_vec();
        let mut locator = WindowLocator::new(pid, pattern, MAX_LOCATE_ATTEMPTS);
        let mut sleeps: usize = 0;
        let mut idx: usize = 0;
        while idx < MAX_LOCATE_ATTEMPTS - 1
            invariant
                snapshots@.len() == MAX_LOCATE_ATTEMPTS,
                locator.wf(),
                locator.pid == pid,
                locator.pattern@ == volume_mixer_title_pattern(),
                locator.max_attempts == MAX_LOCATE_ATTEMPTS,
                locator.passes == idx,
                idx <= MAX_LOCATE_ATTEMPTS - 1,
                sleeps == idx,
                forall|k: int|
                    0 <= k < idx ==> first_window_match(
                        snapshots@[k]@,
                        pid,
                        volume_mixer_title_pattern(),
                    ) is None,
            decreases MAX_LOCATE_ATTEMPTS - 1 - idx,
        {
            match locator.attempt(&snapshots[idx]) {
                LocateStep::Found(hwnd) => {
                    return LocateRun { result: Ok(hwnd), passes: idx + 1, sleeps };
                },
                LocateStep::SleepAndRetry => {
                    sleeps += 1;
                },
                LocateStep::GiveUp => {
                    sleeps += 1;
                },
            }
            idx += 1;
        }
        match locator.attempt(&snapshots[MAX_LOCATE_ATTEMPTS - 1]) {
            LocateStep::Found(hwnd) => LocateRun {
                result: Ok(hwnd),
                passes: MAX_LOCATE_ATTEMPTS,
                sleeps,
            },
            _ => LocateRun {
                result: Err(LocateError::WindowNotFound),
                passes: MAX_LOCATE_ATTEMPTS,
                sleeps,
            },
        }
    }

    /// The absolute path of the executable: the system directory the
    /// platform layer read from the environment, with the well-known tail
    /// appended.
    pub fn construct_volume_mixer_exec_path(windir: &Vec<u8>) -> (r: Vec<u8>)
        ensures
            r@ == windir@ + volume_mixer_exec_path_suffix(),
    {
        let mut r: Vec<u8> = Vec::new();
        let mut i: usize = 0;
        while i < windir.len()
            invariant
                i <= windir@.len(),
                r@ =~= windir@.subrange(0, i as int),
            decreases windir@.len() - i,
        {
            r.push(windir[i]);
            i += 1;
        }
        proof {
            assert(r@ =~= windir@);
        }
        r.push(92);
        r.push(83);
        r.push(121);
        r.push(115);
        r.push(116);
        r.push(101);
        r.push(109);
        r.push(51);
        r.push(50);
        r.push(92);
        r.push(83);
        r.push(110);
        r.push(100);
        r.push(86);
        r.push(111);
        r.push(108);
        r.push(46);
        r.push(101);
        r.push(120);
        r.push(101);
        proof {
            assert(r@ =~= windir@ + volume_mixer_exec_path_suffix());
        }
        r
    }
}

/// Law: when no instance is running, the acquire plan spawns exactly one
/// process, and a discovered window is owned by the given process id with
/// the sought pattern in its title.
pub proof fn lemma_acquire_spawns_once_and_binds(
    table: Seq<ProcessEntry>,
    windows: Seq<WindowInfo>,
    pid: u32,
    hwnd: isize,
)
    requires
        first_pid_match(table, volume_mixer_exec_name()) is None,
        first_window_match(windows, pid, volume_mixer_title_pattern()) == Some(hwnd),
    ensures
        spawn_count(acquire_plan_spec(table)) == 1,
        exists|i: int|
            0 <= i < windows.len() && windows[i].hwnd == hwnd && windows[i].pid == pid
                && #[trigger] crate::bytes::contains_seq(
                windows[i].title@,
                volume_mixer_title_pattern(),
            ),
{
    crate::locator::lemma_first_window_match_found(
        windows,
        pid,
        volume_mixer_title_pattern(),
        hwnd,
    );
    let i = choose|i: int|
        0 <= i < windows.len() && windows[i].hwnd == hwnd
            && #[trigger] crate::locator::window_matches(
            windows[i],
            pid,
            volume_mixer_title_pattern(),
        );
    assert(crate::bytes::contains_seq(windows[i].title@, volume_mixer_title_pattern()));
}

/// Law: when an instance is already running, the acquire plan attaches to
/// its process id and spawns nothing, and a discovered window is owned by
/// that same process with the sought pattern in its title.
pub proof fn lemma_acquire_attaches_without_spawn(
    table: Seq<ProcessEntry>,
    windows: Seq<WindowInfo>,
    pid: u32,
    hwnd: isize,
)
    requires
        first_pid_match(table, volume_mixer_exec_name()) == Some(pid),
        first_window_match(windows, pid, volume_mixer_title_pattern()) == Some(hwnd),
    ensures
        acquire_plan_spec(table) == AcquirePlan::Attach(pid),
        spawn_count(acquire_plan_spec(table)) == 0,
        exists|i: int|
            0 <= i < windows.len() && windows[i].hwnd == hwnd && windows[i].pid == pid
                && #[trigger] crate::bytes::contains_seq(
                windows[i].title@,
                volume_mixer_title_pattern(),
            ),
{
    crate::locator::lemma_first_window_match_found(
        windows,
        pid,
        volume_mixer_title_pattern(),
        hwnd,
    );
    let i = choose|i: int|
        0 <= i < windows.len() && windows[i].hwnd == hwnd
            && #[trigger] crate::locator::window_matches(
            windows[i],
            pid,
            volume_mixer_title_pattern(),
        );
    assert(crate::bytes::contains_seq(windows[i].title@, volume_mixer_title_pattern()));
}

} // verus!
