//! Tray icon control: click classification and the toggle decision.
//!
//! The shell routes pointer events on the notification icon to the hidden
//! event window as a designated callback message. The library classifies
//! each incoming message and, for a left click, plans the toggle of the
//! bound target window: hide it when it is visible, otherwise move it to
//! the bottom-right corner of the work area and show it. The platform
//! layer queries the live state (binding, visibility, rectangles), hands
//! the observations in, and carries the returned plan out.

use vstd::prelude::*;

use crate::geometry::{
    corner_position, move_window_to_right_bottom_corner, MoveCommand, Rect,
};

verus! {

/// First message identifier reserved for applications.
pub const WM_APP: u32 = 0x8000;

/// Callback message the tray icon is registered with; chosen above the
/// standard window messages so the event window can tell it apart.
pub const MSG_ID: u32 = WM_APP + 1;

/// Pointer payload: left button pressed.
pub const WM_LBUTTONDOWN: u32 = 0x0201;

/// Pointer payload: right button pressed.
pub const WM_RBUTTONDOWN: u32 = 0x0204;

/// Fixed size of the tooltip buffer the shell expects.
pub const TIP_BUFFER_LEN: usize = 128;

/// Tooltip shown on the tray icon: "Custom Volume Mixer" as bytes.
pub open spec fn tray_tooltip_text() -> Seq<u8> {
    seq![
        67u8, 117u8, 115u8, 116u8, 111u8, 109u8, 32u8, 86u8, 111u8, 108u8, 117u8, 109u8,
        101u8, 32u8, 77u8, 105u8, 120u8, 101u8, 114u8,
    ]
}

/// The tooltip bytes as a vector.
pub fn tray_tooltip_text_vec() -> (r: Vec<u8>)
    ensures
        r@ == tray_tooltip_text(),
{
    let mut v: Vec<u8> = Vec::new();
    v.push(67);
    v.push(117);
    v.push(115);
    v.push(116);
    v.push(111);
    v.push(109);
    v.push(32);
    v.push(86);
    v.push(111);
    v.push(108);
    v.push(117);
    v.push(109);
    v.push(101);
    v.push(32);
    v.push(77);
    v.push(105);
    v.push(120);
    v.push(101);
    v.push(114);
    proof {
        assert(v@ =~= tray_tooltip_text());
    }
    v
}

/// `msg`, truncated to the buffer size and padded with zero bytes.
pub open spec fn tip_buffer(msg: Seq<u8>) -> Seq<u8> {
    Seq::new(
        TIP_BUFFER_LEN as nat,
        |i: int|
            if i < msg.len() {
                msg[i]
            } else {
                0u8
            },
    )
}

/// What the event window's message handler must do with one message.
pub enum WndProcDecision {
    /// The tray icon was left-clicked: toggle the bound window.
    LeftClick,
    /// The tray icon was right-clicked: post the quit signal.
    RightClick,
    /// A tray callback with any other pointer payload: do nothing.
    IgnoredTrayEvent,
    /// Not the tray callback: defer to the platform's default handler.
    DefaultWindowProc,
}

/// Classification of an incoming message by identifier and pointer payload.
pub open spec fn classify_message(umsg: u32, lparam: u32) -> WndProcDecision {
    if umsg != MSG_ID {
        WndProcDecision::DefaultWindowProc
    } else if lparam == WM_LBUTTONDOWN {
        WndProcDecision::LeftClick
    } else if lparam == WM_RBUTTONDOWN {
        WndProcDecision::RightClick
    } else {
        WndProcDecision::IgnoredTrayEvent
    }
}

/// What a left click on the tray icon does to the bound target window.
pub enum LeftClickAction {
    /// The window is visible: hide it.
    HideWindow(isize),
    /// The window is hidden: show it and bring it to the foreground, after
    /// the given move when the geometry could be read.
    ShowWindow(isize, Option<MoveCommand>),
}

/// Target visibility after carrying a left-click plan out.
pub open spec fn visibility_after(action: Option<LeftClickAction>, visible: bool) -> bool {
    match action {
        None => visible,
        Some(LeftClickAction::HideWindow(_)) => false,
        Some(LeftClickAction::ShowWindow(_, _)) => true,
    }
}

/// Visibility a left click aims for: flipped when a window is bound,
/// untouched when the binding is missing and the click is ignored.
pub open spec fn toggle_visibility(lookup: Option<isize>, visible: bool) -> bool {
    if lookup is Some {
        !visible
    } else {
        visible
    }
}

/// Law: two consecutive left clicks return the bound window to its
/// original visibility, whatever the binding state.
pub proof fn lemma_toggle_idempotent(lookup: Option<isize>, visible: bool)
    ensures
        toggle_visibility(lookup, toggle_visibility(lookup, visible)) == visible,
{
}

/// State of the notification-area icon.
pub struct VolumeMixerTrayIcon {
    /// Event window the icon reports its clicks to.
    pub hwnd: isize,
    /// Whether the icon is currently registered with the shell.
    pub registered: bool,
    /// Tooltip bytes, truncated and zero-padded to the fixed buffer size.
    pub tip: Vec<u8>,
    /// Message identifier the clicks arrive under.
    pub callback_message: u32,
}

impl VolumeMixerTrayIcon {
    /// Icon state after asking the shell to add the icon; `shell_accepted`
    /// is the outcome of that request. A refusal leaves the icon
    /// unregistered, a degraded but accepted state.
    pub fn new(hwnd: isize, shell_accepted: bool) -> (r: VolumeMixerTrayIcon)
        ensures
            r.hwnd == hwnd,
            r.registered == shell_accepted,
            r.callback_message == MSG_ID,
            r.tip@ == tip_buffer(tray_tooltip_text()),
    {
        let tip_text = tray_tooltip_text_vec();
        let tip = Self::construct_tip_msg_buf(&tip_text);
        VolumeMixerTrayIcon { hwnd, registered: shell_accepted, tip, callback_message: MSG_ID }
    }

    /// `tip_msg` fitted into the fixed-size tooltip buffer: truncated to
    /// the buffer size and padded with zero bytes.
    pub fn construct_tip_msg_buf(tip_msg: &Vec<u8>) -> (r: Vec<u8>)
        ensures
            r@ == tip_buffer(tip_msg@),
    {
        let mut buf: Vec<u8> = Vec::new();
        let mut i: usize = 0;
        while i < TIP_BUFFER_LEN
            invariant
                i <= TIP_BUFFER_LEN,
                buf@.len() == i,
                forall|k: int|
                    0 <= k < i ==> buf@[k] == (if k < tip_msg@.len() {
                        tip_msg@[k]
                    } else {
                        0u8
                    }),
            decreases TIP_BUFFER_LEN - i,
        {
            if i < tip_msg.len() {
                buf.push(tip_msg[i]);
            } else {
                buf.push(0);
            }
            i += 1;
        }
        proof {
            assert(buf@ =~= tip_buffer(tip_msg@));
        }
        buf
    }

    /// Classify one message delivered to the event window.
    pub fn wnd_proc(umsg: u32, lparam: u32) -> (d: WndProcDecision)
        ensures
            d == classify_message(umsg, lparam),
    {
        if umsg != MSG_ID {
            WndProcDecision::DefaultWindowProc
        } else if lparam == WM_LBUTTONDOWN {
            WndProcDecision::LeftClick
        } else if lparam == WM_RBUTTONDOWN {
            WndProcDecision::RightClick
        } else {
            WndProcDecision::IgnoredTrayEvent
        }
    }

    /// Plan a left click on the tray icon.
    ///
    /// `lookup` is the binding read back from the event window (a missing
    /// binding drops the click), `visible` the live visibility of the bound
    /// window, and the rectangles the live geometry, each absent when its
    /// query failed. A visible window is hidden. A hidden window is shown
    /// and brought to the foreground, moved first to the bottom-right
    /// corner of the work area; when either rectangle could not be read the
    /// move is skipped and the window is still shown.
    pub fn on_left_mouse_pressed(
        lookup: Option<isize>,
        visible: bool,
        window_rect: Option<Rect>,
        work_area: Option<Rect>,
    ) -> (action: Option<LeftClickAction>)
        requires
            window_rect matches Some(r) ==> r.wf(),
            work_area matches Some(r) ==> r.wf(),
        ensures
            match lookup {
                None => action is None,
                Some(hwnd) => if visible {
                    action == Some(LeftClickAction::HideWindow(hwnd))
                } else {
                    &&& action matches Some(LeftClickAction::ShowWindow(shown, repositioned))
                    &&& shown == hwnd
                    &&& match (window_rect, work_area) {
                        (Some(wr), Some(wa)) => {
                            &&& repositioned matches Some(m)
                            &&& m.width == wr.spec_width()
                            &&& m.height == wr.spec_height()
                            &&& (m.x as int, m.y as int) == corner_position(
                                wa.spec_width(),
                                wa.spec_height(),
                                wr.spec_width(),
                                wr.spec_height(),
                            )
                        },
                        _ => repositioned is None,
                    }
                },
            },
            visibility_after(action, visible) == toggle_visibility(lookup, visible),
    {
        let hwnd = match lookup {
            None => {
                return None;
            },
            Some(hwnd) => hwnd,
        };
        if visible {
            Some(LeftClickAction::HideWindow(hwnd))
        } else {
            let repositioned = match (window_rect, work_area) {
                (Some(wr), Some(wa)) => Some(move_window_to_right_bottom_corner(&wr, &wa)),
                _ => None,
            };
            Some(LeftClickAction::ShowWindow(hwnd, repositioned))
        }
    }

    /// Icon state after asking the shell to remove the icon. The request's
    /// outcome is logged by the caller and never escalated; the icon is no
    /// longer registered either way.
    pub fn deregister(&mut self)
        ensures
            final(self).registered == false,
            final(self).hwnd == old(self).hwnd,
            final(self).tip == old(self).tip,
            final(self).callback_message == old(self).callback_message,
    {
        self.registered = false;
    }
}

} // verus!
