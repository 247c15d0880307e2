//! Window policy: closing the window hides it to the tray, and the tray menu
//! opens it again or ends the application.
use vstd::prelude::*;

use crate::tray::TrayCommand;

verus! {

/// Frames during which a close request is ignored after the window is opened
/// from the tray: the platform may still report a stale one.
pub const CLOSE_GRACE_FRAMES: u8 = 30;

/// State of the main window.
#[derive(Debug, Clone, Copy, PartialEq, Eq, Structural)]
pub struct WindowState {
    /// Whether a close request ends the application.
    pub allow_close: bool,
    /// Whether the window is hidden to the tray.
    pub background: bool,
    /// Frames left during which close requests are not taken as the user's.
    pub ignore_close_frames: u8,
}

/// What the window layer does in one frame.
#[derive(Debug, Clone, Copy, PartialEq, Eq, Structural)]
pub struct FrameAction {
    /// Cancel the platform's close request.
    pub cancel_close: bool,
    /// Minimize the window to the tray.
    pub hide_to_tray: bool,
    /// Draw the user interface; otherwise keep the window minimized.
    pub draw_ui: bool,
}

/// The action of a frame from state `s` with a pending close request or not.
pub open spec fn frame_action(s: WindowState, close_requested: bool) -> FrameAction {
    let frames = if s.ignore_close_frames > 0 {
        s.ignore_close_frames - 1
    } else {
        0
    };
    let intercept = !s.allow_close && !s.background && close_requested;
    let hidden = intercept && frames == 0;
    FrameAction { cancel_close: intercept, hide_to_tray: hidden, draw_ui: !(s.background || hidden) }
}

/// The state after a frame from state `s`.
pub open spec fn frame_state(s: WindowState, close_requested: bool) -> WindowState {
    let frames = if s.ignore_close_frames > 0 {
        s.ignore_close_frames - 1
    } else {
        0
    };
    WindowState {
        allow_close: s.allow_close,
        background: s.background || frame_action(s, close_requested).hide_to_tray,
        ignore_close_frames: frames as u8,
    }
}

impl WindowState {
    /// A window shown at start, or hidden when the application starts in the background.
    pub fn new(background: bool) -> (s: Self)
        ensures
            s == (WindowState { allow_close: false, background, ignore_close_frames: 0 }),
    {
        WindowState { allow_close: false, background, ignore_close_frames: 0 }
    }

    /// Hides the window to the tray.
    pub fn hide_to_tray(&mut self)
        ensures
            *final(self) == (WindowState { background: true, ..*old(self) }),
    {
        self.background = true;
    }

    /// Opens the window from the tray; stale close requests are ignored for a while.
    pub fn show_window(&mut self)
        ensures
            *final(self) == (WindowState { allow_close: false, background: false, ignore_close_frames: CLOSE_GRACE_FRAMES }),
    {
        self.allow_close = false;
        self.background = false;
        self.ignore_close_frames = CLOSE_GRACE_FRAMES;
    }

    /// Lets the next close request end the application.
    pub fn exit_app(&mut self)
        ensures
            *final(self) == (WindowState { allow_close: true, ..*old(self) }),
    {
        self.allow_close = true;
    }

    /// Reacts to a command of the tray menu.
    pub fn handle_command(&mut self, cmd: TrayCommand)
        ensures
            cmd == TrayCommand::Open ==> *final(self) == (WindowState {
                allow_close: false,
                background: false,
                ignore_close_frames: CLOSE_GRACE_FRAMES,
            }),
            cmd == TrayCommand::Exit ==> *final(self) == (WindowState { allow_close: true, ..*old(self) }),
    {
        match cmd {
            TrayCommand::Open => self.show_window(),
            TrayCommand::Exit => self.exit_app(),
        }
    }

    /// One frame: counts down the grace frames, turns a close request of the
    /// user into hiding to the tray, and says whether to draw the interface.
    pub fn on_frame(&mut self, close_requested: bool) -> (a: FrameAction)
        ensures
            a == frame_action(*old(self), close_requested),
            *final(self) == frame_state(*old(self), close_requested),
    {
        if self.ignore_close_frames > 0 {
            self.ignore_close_frames = self.ignore_close_frames - 1;
        }
        let intercept = !self.allow_close && !self.background && close_requested;
        let mut hidden = false;
        if intercept && self.ignore_close_frames == 0 {
            self.hide_to_tray();
            hidden = true;
        }
        FrameAction { cancel_close: intercept, hide_to_tray: hidden, draw_ui: !self.background }
    }
}

} // verus!
