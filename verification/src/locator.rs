//! Discovery of the target window, with a bounded retry.
//!
//! The platform layer enumerates the top-level windows and hands the result
//! over as a snapshot: one entry per window, in enumeration order, each with
//! its handle, its owning process id and its title bytes. A window matches
//! when it is owned by the target process and its title contains the sought
//! pattern as a substring; the first match in enumeration order wins.
//!
//! Window creation lags process creation, so a single enumeration pass may
//! come too early. `WindowLocator` bounds the retry: each pass consumes one
//! attempt, a failed pass asks the caller to sleep and enumerate again while
//! attempts remain, and the search gives up after the configured maximum.

use vstd::prelude::*;

use crate::bytes::{contains_bytes, contains_seq};

verus! {

/// One row of a window-enumeration snapshot.
#[derive(Clone)]
pub struct WindowInfo {
    /// Window handle.
    pub hwnd: isize,
    /// Identifier of the process that owns the window.
    pub pid: u32,
    /// Window title bytes.
    pub title: Vec<u8>,
}

/// The window is owned by `pid` and its title contains `pattern`.
pub open spec fn window_matches(window: WindowInfo, pid: u32, pattern: Seq<u8>) -> bool {
    window.pid == pid && contains_seq(window.title@, pattern)
}

/// Handle of the first window in enumeration order that matches, if any.
pub open spec fn first_window_match(
    windows: Seq<WindowInfo>,
    pid: u32,
    pattern: Seq<u8>,
) -> Option<isize>
    decreases windows.len(),
{
    if windows.len() == 0 {
        None
    } else if window_matches(windows[0], pid, pattern) {
        Some(windows[0].hwnd)
    } else {
        first_window_match(windows.skip(1), pid, pattern)
    }
}

/// A found handle names a window of the snapshot that is owned by `pid`,
/// whose title contains `pattern`, and that no earlier window precedes.
pub proof fn lemma_first_window_match_found(
    windows: Seq<WindowInfo>,
    pid: u32,
    pattern: Seq<u8>,
    hwnd: isize,
)
    requires
        first_window_match(windows, pid, pattern) == Some(hwnd),
    ensures
        exists|i: int|
            0 <= i < windows.len() && windows[i].hwnd == hwnd
                && #[trigger] window_matches(windows[i], pid, pattern)
                && (forall|j: int| 0 <= j < i ==> !window_matches(windows[j], pid, pattern)),
    decreases windows.len(),
{
    if windows.len() == 0 {
    } else if window_matches(windows[0], pid, pattern) {
        assert(windows[0].hwnd == hwnd);
    } else {
        lemma_first_window_match_found(windows.skip(1), pid, pattern, hwnd);
        let i = choose|i: int|
            0 <= i < windows.skip(1).len() && windows.skip(1)[i].hwnd == hwnd
                && #[trigger] window_matches(windows.skip(1)[i], pid, pattern)
                && (forall|j: int|
                    0 <= j < i ==> !window_matches(windows.skip(1)[j], pid, pattern));
        assert(windows[i + 1] == windows.skip(1)[i]);
        assert(forall|j: int| 0 <= j < i + 1 ==> !window_matches(windows[j], pid, pattern))
            by {
            assert(forall|j: int|
                1 <= j < i + 1 ==> windows[j] == windows.skip(1)[j - 1]);
        }
    }
}

/// Handle of the first window of the snapshot that is owned by `pid` and
/// whose title contains `pattern`, if any.
pub fn find_window_by_pattern_in_title(
    windows: &Vec<WindowInfo>,
    pattern: &Vec<u8>,
    pid: u32,
) -> (r: Option<isize>)
    ensures
        r == first_window_match(windows@, pid, pattern@),
{
    let mut i: usize = 0;
    proof {
        assert(windows@.skip(0) =~= windows@);
    }
    while i < windows.len()
        invariant
            i <= windows@.len(),
            first_window_match(windows@, pid, pattern@)
                == first_window_match(windows@.skip(i as int), pid, pattern@),
        decreases windows@.len() - i,
    {
        proof {
            assert(windows@.skip(i as int)[0] == windows@[i as int]);
        }
        if windows[i].pid == pid && contains_bytes(&windows[i].title, pattern) {
            return Some(windows[i].hwnd);
        }
        proof {
            assert(windows@.skip(i as int).skip(1) =~= windows@.skip(i + 1));
        }
        i += 1;
    }
    None
}

/// What the caller must do after one enumeration pass.
pub enum LocateStep {
    /// A window matched; discovery is over.
    Found(isize),
    /// No window matched and attempts remain: sleep for the retry delay,
    /// enumerate again, and hand the new snapshot to the next attempt.
    SleepAndRetry,
    /// No window matched on the final attempt: discovery failed.
    GiveUp,
}

/// Bounded-retry search for the target window.
///
/// Each call to [`WindowLocator::attempt`] consumes one enumeration pass;
/// the locator refuses more passes than `max_attempts`, and it never asks
/// the caller to sleep once a pass has matched.
pub struct WindowLocator {
    /// Identifier of the process whose window is sought.
    pub pid: u32,
    /// Pattern the window title must contain.
    pub pattern: Vec<u8>,
    /// Total number of enumeration passes allowed.
    pub max_attempts: usize,
    /// Number of enumeration passes already made.
    pub passes: usize,
}

impl WindowLocator {
    /// The locator never exceeds its attempt budget.
    pub open spec fn wf(&self) -> bool {
        1 <= self.max_attempts && self.passes <= self.max_attempts
    }

    /// A fresh locator with no passes made yet.
    pub fn new(pid: u32, pattern: Vec<u8>, max_attempts: usize) -> (r: WindowLocator)
        requires
            1 <= max_attempts,
        ensures
            r.wf(),
            r.pid == pid,
            r.pattern == pattern,
            r.max_attempts == max_attempts,
            r.passes == 0,
    {
        WindowLocator { pid, pattern, max_attempts, passes: 0 }
    }

    /// Make one enumeration pass over `snapshot`.
    ///
    /// The pass finds the first matching window if one is there; otherwise
    /// it asks for a retry while attempts remain and gives up on the last
    /// one. A successful pass never asks the caller to sleep.
    pub fn attempt(&mut self, snapshot: &Vec<WindowInfo>) -> (step: LocateStep)
        requires
            old(self).wf(),
            old(self).passes < old(self).max_attempts,
        ensures
            final(self).wf(),
            final(self).pid == old(self).pid,
            final(self).pattern == old(self).pattern,
            final(self).max_attempts == old(self).max_attempts,
            final(self).passes == old(self).passes + 1,
            match step {
                LocateStep::Found(hwnd) => first_window_match(
                    snapshot@,
                    old(self).pid,
                    old(self).pattern@,
                ) == Some(hwnd),
                LocateStep::SleepAndRetry => {
                    &&& first_window_match(snapshot@, old(self).pid, old(self).pattern@) is None
                    &&& final(self).passes < final(self).max_attempts
                },
                LocateStep::GiveUp => {
                    &&& first_window_match(snapshot@, old(self).pid, old(self).pattern@) is None
                    &&& final(self).passes == final(self).max_attempts
                },
            },
    {
        self.passes += 1;
        match find_window_by_pattern_in_title(snapshot, &self.pattern, self.pid) {
            Some(hwnd) => LocateStep::Found(hwnd),
            None => {
                if self.passes < self.max_attempts {
                    LocateStep::SleepAndRetry
                } else {
                    LocateStep::GiveUp
                }
            },
        }
    }
}

} // verus!
