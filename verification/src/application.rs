//! The Switch application platform. Homebrew has no window system: the applet
//! owns the frame loop and says when the user has quit, so the platform is a
//! loop with a quit flag and `appletMainLoop` as a second exit condition.

use vstd::prelude::*;

verus! {

/// Frames the panic message stays on the text console before the applet exits.
pub const ERROR_SCREEN_FRAMES: u32 = 600;

/// Whether the event loop runs a frame: no exit was requested and the applet
/// loop still runs.
pub open spec fn loop_runs(quit: bool, applet_running: bool) -> bool {
    !quit && applet_running
}

pub struct Platform {
    quit_requested: bool,
}

impl Platform {
    pub closed spec fn quit(&self) -> bool {
        self.quit_requested
    }

    pub fn new() -> (r: Self)
        ensures
            !r.quit(),
    {
        Platform { quit_requested: false }
    }

    pub fn initialize(&mut self)
        ensures
            final(self).quit() == old(self).quit(),
    {
    }

    pub fn request_exit(&mut self)
        ensures
            final(self).quit(),
    {
        self.quit_requested = true;
    }

    pub fn quit_requested(&self) -> (r: bool)
        ensures
            r == self.quit(),
    {
        self.quit_requested
    }

    /// Titles have nowhere to go on the Switch.
    pub fn set_title(&self, title: &str) {
    }

    /// The framebuffer is fixed: there is no logical inner extent.
    pub fn logical_inner_extent(&self) -> (r: Option<(u32, u32)>)
        ensures
            r is None,
    {
        None
    }

    /// Whether the event loop runs another frame, given what `appletMainLoop`
    /// answered: the applet loop is authoritative, and a requested exit ends it too.
    pub fn keep_running(&self, applet_running: bool) -> (r: bool)
        ensures
            r == loop_runs(self.quit(), applet_running),
    {
        !self.quit_requested && applet_running
    }
}

/// Whether the panic screen shows frame `frame`: it stays up for
/// `ERROR_SCREEN_FRAMES` frames unless the applet is exiting.
pub fn error_screen_continues(frame: u32, applet_running: bool) -> (r: bool)
    ensures
        r == (frame < ERROR_SCREEN_FRAMES && applet_running),
{
    frame < ERROR_SCREEN_FRAMES && applet_running
}


/// Once an exit is requested the event loop ends, whatever the applet says.
pub proof fn law_exit_is_final(quit: bool, applet_running: bool)
    requires
        quit,
    ensures
        !loop_runs(quit, applet_running),
{
}

} // verus!
