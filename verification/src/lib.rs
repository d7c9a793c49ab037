//! An embedding adapter for a reference-counted browser-engine plugin ABI.
//!
//! The engine itself is an opaque external collaborator reached through C
//! callback tables; this crate holds the adapter logic that those tables
//! delegate to, modelled over plain values: the reference-counting lifetime
//! protocol every handler object must obey, the named process-message codec
//! used between the browser and page-content processes, the handlers for
//! lifecycle, display, context-menu, certificate and print events, and the
//! two promise-resuming RPC bridges (PDF export and native file dialogs).

use vstd::prelude::*;

pub mod app;
pub mod browser;
pub mod browser_process_handler;
pub mod browser_view_delegate;
pub mod client;
pub mod context_menu_handler;
pub mod display_handler;
pub mod life_span_handler;
pub mod message;
pub mod print_handler;
pub mod print_pdf_callback;
pub mod refcount;
pub mod render_process_handler;
pub mod request_handler;
pub mod run_file_dialog_callback;
pub mod scripting;
pub mod utf16;
pub mod v8_file_dialog_handler;
pub mod v8_pdf_print_handler;
pub mod window_delegate;

use crate::display_handler::{LOG_SEVERITY_ERROR, LOG_SEVERITY_INFO};
use crate::window_delegate::{WindowDelegate, WindowOptions};

verus! {

/// The settings the engine is initialized with.
pub struct CefSettings {
    /// The engine sandbox is always disabled in this embedding.
    pub no_sandbox: bool,
    /// The remote-debugging port, when one was requested.
    pub remote_debugging_port: Option<u16>,
    /// Whether the engine must ignore its command line.
    pub command_line_args_disabled: bool,
    /// The engine's own log severity threshold.
    pub log_severity: i32,
}

/// The engine settings for the given choices: sandbox off, the requested
/// debugging port, the command-line flag as asked, and the engine logging
/// at info for a debug build, at error otherwise.
pub fn build_settings(
    debug_port: Option<u16>,
    disable_command_line_args: bool,
    debug_build: bool,
) -> (s: CefSettings)
    ensures
        s.no_sandbox == true,
        s.remote_debugging_port == debug_port,
        s.command_line_args_disabled == disable_command_line_args,
        s.log_severity == (if debug_build {
            LOG_SEVERITY_INFO
        } else {
            LOG_SEVERITY_ERROR
        }),
{
    CefSettings {
        no_sandbox: true,
        remote_debugging_port: debug_port,
        command_line_args_disabled: disable_command_line_args,
        log_severity: if debug_build {
            LOG_SEVERITY_INFO
        } else {
            LOG_SEVERITY_ERROR
        },
    }
}

/// Whether the host process must exit with the engine's exit code after
/// the process-execute entry point: it must whenever the code is
/// non-negative — this process was a helper process, not the browser.
pub fn should_exit_after_execute(exit_code: i32) -> (r: bool)
    ensures
        r == (exit_code >= 0),
{
    exit_code >= 0
}

/// Initialization failed: the embedding application must not proceed to
/// open windows.
pub struct InitError {}

impl InitError {
    /// The failure, worded for the caller's error report.
    pub fn message(&self) -> (s: String)
        ensures
            s@ == "failed to initialize"@,
    {
        "failed to initialize".to_owned()
    }
}

/// A successfully initialized engine; windows may be opened and the
/// message loop run against it.
pub struct Cef {}

impl Cef {
    /// Concludes initialization from the engine's own report: the engine
    /// is usable exactly when it reported success, and on failure the
    /// caller gets the hard error instead.
    pub fn initialize(engine_initialized: bool) -> (r: Result<Cef, InitError>)
        ensures
            r is Ok <==> engine_initialized,
    {
        if engine_initialized {
            Ok(Cef {})
        } else {
            Err(InitError {})
        }
    }

    /// Prepares a top-level window: a delegate holding the options and the
    /// pre-converted icon handles, carrying two references — the
    /// allocator's and the one the engine retains for the window it
    /// creates.
    pub fn open_window(
        &self,
        options: WindowOptions,
        window_icon: Option<u64>,
        window_app_icon: Option<u64>,
    ) -> (d: WindowDelegate)
        ensures
            d.ref_count.count() == 2,
            d.options == options,
            d.window_icon == window_icon,
            d.window_app_icon == window_app_icon,
    {
        let mut d = window_delegate::allocate(options, window_icon, window_app_icon);
        d.inc_ref();
        d
    }
}

} // verus!
