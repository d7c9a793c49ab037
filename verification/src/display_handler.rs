//! The display handler: forwards page console messages to the host's
//! structured logger at a mapped severity, forwards fullscreen changes to
//! the owning window, and suppresses tooltips.

use vstd::prelude::*;

use crate::refcount::RefCount;
use crate::utf16::{decode_utf16_lossy, decode_utf16_replace};

verus! {

/// The engine's default console severity.
pub const LOG_SEVERITY_DEFAULT: i32 = 0;

/// The engine's verbose/debug console severity.
pub const LOG_SEVERITY_DEBUG: i32 = 1;

/// The engine's informational console severity.
pub const LOG_SEVERITY_INFO: i32 = 2;

/// The engine's warning console severity.
pub const LOG_SEVERITY_WARNING: i32 = 3;

/// The engine's error console severity.
pub const LOG_SEVERITY_ERROR: i32 = 4;

/// The engine's fatal console severity.
pub const LOG_SEVERITY_FATAL: i32 = 5;

/// The host logger's severities.
#[derive(Clone, Copy, PartialEq, Eq, Structural, Debug)]
pub enum HostLogLevel {
    Debug,
    Info,
    Warn,
    Error,
}

/// The severity mapping: debug stays debug, default and info are info,
/// warning is warn, error and fatal are error, and anything unknown is
/// reported as info.
pub open spec fn spec_map_severity(level: i32) -> HostLogLevel {
    if level == LOG_SEVERITY_DEBUG {
        HostLogLevel::Debug
    } else if level == LOG_SEVERITY_WARNING {
        HostLogLevel::Warn
    } else if level == LOG_SEVERITY_ERROR || level == LOG_SEVERITY_FATAL {
        HostLogLevel::Error
    } else {
        HostLogLevel::Info
    }
}

/// Maps an engine console severity to the host logger's severity, as
/// [`spec_map_severity`] states it.
pub fn map_severity(level: i32) -> (r: HostLogLevel)
    ensures
        r == spec_map_severity(level),
{
    if level == LOG_SEVERITY_DEBUG {
        HostLogLevel::Debug
    } else if level == LOG_SEVERITY_WARNING {
        HostLogLevel::Warn
    } else if level == LOG_SEVERITY_ERROR || level == LOG_SEVERITY_FATAL {
        HostLogLevel::Error
    } else {
        HostLogLevel::Info
    }
}

/// One console line owed to the host logger.
pub struct ConsoleLogEntry {
    /// The mapped severity.
    pub level: HostLogLevel,
    /// The decoded message text.
    pub text: String,
}

/// The display handler, holding the window whose fullscreen state it
/// forwards to.
pub struct DisplayHandler {
    /// The engine-mandated reference count.
    pub ref_count: RefCount,
    /// The owning window, by handle.
    pub window: u64,
}

impl DisplayHandler {
    /// Takes one more counted reference to this handler.
    pub fn inc_ref(&mut self)
        requires
            old(self).ref_count.count() >= 1,
            old(self).ref_count.count() < u64::MAX,
        ensures
            final(self).ref_count.count() == old(self).ref_count.count() + 1,
            final(self).window == old(self).window,
    {
        self.ref_count.add_ref();
    }

    /// A console message from the page: decoded and mapped for the host
    /// logger. The returned flag reports the message as handled.
    pub fn on_console_message(&self, level: i32, message: &Vec<u16>) -> (r: (
        ConsoleLogEntry,
        bool,
    ))
        ensures
            r.0.level == spec_map_severity(level),
            r.0.text@ == decode_utf16_replace(message@),
            r.1 == true,
    {
        let text = decode_utf16_lossy(message);
        (ConsoleLogEntry { level: map_severity(level), text }, true)
    }

    /// A fullscreen-mode change from the page is forwarded to the owning
    /// window: the returned pair names the window and the state to set.
    pub fn on_fullscreen_mode_change(&self, fullscreen: bool) -> (r: (u64, bool))
        ensures
            r == (self.window, fullscreen),
    {
        (self.window, fullscreen)
    }

    /// Tooltip requests are suppressed: reported handled, showing nothing.
    pub fn on_tooltip(&self) -> (handled: bool)
        ensures
            handled,
    {
        true
    }
}

/// A freshly allocated display handler bound to its owning window.
pub fn allocate(window: u64) -> (h: DisplayHandler)
    ensures
        h.ref_count.count() == 1,
        h.window == window,
{
    DisplayHandler { ref_count: RefCount::new(), window }
}

} // verus!
