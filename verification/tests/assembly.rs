//! The aggregates: client dispatch, the page-content-process handler,
//! the application aggregate, the window assembly and the engine root.

use cef_simple::app;
use cef_simple::browser;
use cef_simple::browser_process_handler;
use cef_simple::browser_view_delegate;
use cef_simple::client;
use cef_simple::client::BrowserAction;
use cef_simple::display_handler::{LOG_SEVERITY_ERROR, LOG_SEVERITY_INFO};
use cef_simple::message::ProcessMessage;
use cef_simple::render_process_handler;
use cef_simple::scripting::ScriptValue;
use cef_simple::v8_file_dialog_handler::FileDialogMode;
use cef_simple::window_delegate;
use cef_simple::window_delegate::{WindowOptions, WindowSetupStep};
use cef_simple::{build_settings, should_exit_after_execute, Cef};

fn wide(s: &str) -> Vec<u16> {
    s.encode_utf16().collect()
}

/// A `print_to_pdf` message starts a PDF export to the carried path with
/// the fixed A4 settings.
#[test]
fn client_dispatches_pdf_print() {
    let c = client::allocate(3);
    let mut m = ProcessMessage::create("print_to_pdf".to_string());
    m.set_size(1);
    m.set_string(0, "/tmp/page.pdf".to_string());

    match c.on_process_message_received(&m) {
        BrowserAction::PdfPrint(req) => {
            assert_eq!(req.path, "/tmp/page.pdf");
            assert_eq!(req.settings, browser::pdf_print_settings());
            assert_eq!(req.settings.page_width, 210_000);
            assert_eq!(req.settings.page_height, 297_000);
            assert_eq!(req.settings.scale_factor, 100);
            assert!(!req.settings.header_footer_enabled);
            assert!(!req.settings.landscape);
            assert!(req.settings.backgrounds_enabled);
        }
        _ => panic!("expected a PDF print action"),
    }
}

/// A `print_to_pdf` message without a string path is not handled.
#[test]
fn client_rejects_pathless_pdf_print() {
    let c = client::allocate(3);
    let m = ProcessMessage::create("print_to_pdf".to_string());
    assert!(matches!(c.on_process_message_received(&m), BrowserAction::NotHandled));

    let mut wrong = ProcessMessage::create("print_to_pdf".to_string());
    wrong.set_size(1);
    wrong.set_bool(0, true);
    assert!(matches!(c.on_process_message_received(&wrong), BrowserAction::NotHandled));
}

/// The two dialog messages start a dialog with the carried texts, absent
/// positions read as empty, and the single filter.
#[test]
fn client_dispatches_file_dialogs() {
    let c = client::allocate(3);
    let mut m = ProcessMessage::create("open_file_dialog".to_string());
    m.set_size(3);
    m.set_string(0, "Open it".to_string());
    m.set_string(1, "start.txt".to_string());
    m.set_string(2, ".txt".to_string());

    match c.on_process_message_received(&m) {
        BrowserAction::FileDialog(req) => {
            assert_eq!(req.mode, FileDialogMode::Open);
            assert_eq!(req.title, "Open it");
            assert_eq!(req.initial_file_name, "start.txt");
            assert_eq!(req.accept_filters, vec![".txt".to_string()]);
        }
        _ => panic!("expected a file dialog action"),
    }

    // Null positions are read as empty strings.
    let mut sparse = ProcessMessage::create("save_file_dialog".to_string());
    sparse.set_size(3);
    sparse.set_string(2, ".pdf".to_string());
    match c.on_process_message_received(&sparse) {
        BrowserAction::FileDialog(req) => {
            assert_eq!(req.mode, FileDialogMode::Save);
            assert_eq!(req.title, "");
            assert_eq!(req.initial_file_name, "");
            assert_eq!(req.accept_filters, vec![".pdf".to_string()]);
        }
        _ => panic!("expected a file dialog action"),
    }
}

/// The browser-side replies: the PDF outcome flag, and the dialog path or
/// bare cancellation.
#[test]
fn reply_builders() {
    let ok = client::build_pdf_reply(true);
    assert_eq!(ok.name(), "print_to_pdf_done");
    assert_eq!(ok.arg_count(), 1);
    assert_eq!(ok.get_bool(0), Some(true));

    let failed = client::build_pdf_reply(false);
    assert_eq!(failed.get_bool(0), Some(false));

    let picked = client::build_dialog_reply(Some("/home/user/a.txt".to_string()));
    assert_eq!(picked.name(), "run_file_dialog_done");
    assert_eq!(picked.arg_count(), 1);
    assert_eq!(picked.get_string(0), Some("/home/user/a.txt".to_string()));

    let cancelled = client::build_dialog_reply(None);
    assert_eq!(cancelled.name(), "run_file_dialog_done");
    assert_eq!(cancelled.arg_count(), 0);
}

/// A whole in-process round trip: the page-side call produces the request,
/// the client dispatches it, the built reply resumes the page-side promise.
#[test]
fn full_pdf_round_trip_through_client() {
    let mut r = render_process_handler::allocate();
    r.on_browser_created(1);
    let args = vec![
        ScriptValue::Text("/tmp/whole.pdf".to_string()),
        ScriptValue::Func(61),
        ScriptValue::Func(62),
    ];
    let (handled, request) = r.pdf_print_extension.execute(&wide("printToPDF"), &args, 4);
    assert!(handled);
    let request = request.expect("the page side sends a request");

    let c = client::allocate(1);
    let action = c.on_process_message_received(&request);
    let path = match action {
        BrowserAction::PdfPrint(req) => req.path,
        _ => panic!("the browser side starts a PDF export"),
    };
    assert_eq!(path, "/tmp/whole.pdf");

    // The engine's print completes; the reply resumes the promise.
    let reply = client::build_pdf_reply(true);
    let (recognized, invocation) = r.on_process_message_received(&reply);
    assert!(recognized);
    let invocation = invocation.expect("the promise is resumed");
    assert_eq!(invocation.context, 4);
    assert_eq!(invocation.target, 61);
    assert_eq!(invocation.argument, None);
}

/// Any other message name is not handled.
#[test]
fn client_ignores_unknown_messages() {
    let c = client::allocate(3);
    let m = ProcessMessage::create("navigate_somewhere".to_string());
    assert!(matches!(c.on_process_message_received(&m), BrowserAction::NotHandled));
}

/// The client getters hand out counted references: each get increments
/// the handler's count.
#[test]
fn client_getters_count_references() {
    let mut c = client::allocate(3);
    assert!(c.life_span_handler.ref_count.has_one_ref());
    {
        let h = c.get_life_span_handler();
        assert!(h.ref_count.has_at_least_one_ref());
        assert!(!h.ref_count.has_one_ref());
    }
    assert!(!c.life_span_handler.ref_count.has_one_ref());

    c.get_context_menu_handler();
    assert!(!c.context_menu_handler.ref_count.has_one_ref());
    c.get_request_handler();
    assert!(!c.request_handler.ref_count.has_one_ref());
    let w = c.get_display_handler().window;
    assert_eq!(w, 3);
}

/// The page-content-process handler binds the bridges to the created
/// browser, routes each reply to the bridge waiting for it, and unbinds
/// on destruction.
#[test]
fn render_process_routes_replies() {
    let mut r = render_process_handler::allocate();
    r.on_browser_created(8);
    assert_eq!(r.pdf_print_extension.browser, Some(8));
    assert_eq!(r.file_dialog_extension.frame, Some(8));

    // A pending PDF call, then its reply through the router.
    let args = vec![
        ScriptValue::Text("/tmp/x.pdf".to_string()),
        ScriptValue::Func(41),
        ScriptValue::Func(42),
    ];
    let (handled, _) = r.pdf_print_extension.execute(&wide("printToPDF"), &args, 2);
    assert!(handled);

    let mut reply = ProcessMessage::create("print_to_pdf_done".to_string());
    reply.set_size(1);
    reply.set_bool(0, true);
    let (recognized, invocation) = r.on_process_message_received(&reply);
    assert!(recognized);
    assert_eq!(invocation.expect("the PDF bridge answers").target, 41);

    // An unrelated message is recognized by neither bridge.
    let other = ProcessMessage::create("something_else".to_string());
    let (recognized2, invocation2) = r.on_process_message_received(&other);
    assert!(!recognized2);
    assert!(invocation2.is_none());

    r.on_browser_destroyed();
    assert_eq!(r.pdf_print_extension.browser, None);
    assert_eq!(r.file_dialog_extension.frame, None);
}

/// Web-environment initialization registers the PDF printer first, then
/// the file dialogs.
#[test]
fn render_process_registers_extensions() {
    let r = render_process_handler::allocate();
    let (pdf, dialogs) = r.on_web_kit_initialized();
    assert_eq!(pdf.extension_name, "CEF PDF Printer");
    assert_eq!(dialogs.extension_name, "CEF File Dialogs");
}

/// The application aggregate wires both process handlers and amends the
/// command line with the on-screen-keyboard switch.
#[test]
fn app_aggregate() {
    let mut a = app::allocate();
    assert!(a.ref_count.has_one_ref());

    a.get_browser_process_handler();
    assert!(!a.browser_process_handler.ref_count.has_one_ref());
    a.get_render_process_handler();
    assert!(!a.render_process_handler.ref_count.has_one_ref());

    let mut command_line = vec!["--lang=en".to_string()];
    app::on_before_command_line_processing(&mut command_line);
    assert_eq!(
        command_line,
        vec!["--lang=en".to_string(), "disable-usb-keyboard-detect".to_string()]
    );
}

/// The browser-process handler hands out a counted reference to its
/// print handler; the browser-view delegate is only a counted object.
#[test]
fn process_handlers_allocate_fresh() {
    let mut b = browser_process_handler::allocate();
    assert!(b.print_handler.ref_count.has_one_ref());
    assert!(b.get_print_handler().ref_count.has_at_least_one_ref());
    assert!(!b.print_handler.ref_count.has_one_ref());

    let mut v = browser_view_delegate::allocate();
    assert!(v.ref_count.has_one_ref());
    v.inc_ref();
    assert!(!v.ref_count.has_one_ref());
}

/// The prepared dialog invocation carries exactly the one filter.
#[test]
fn browser_run_file_dialog_single_filter() {
    let req = browser::run_file_dialog(
        FileDialogMode::Save,
        "Save as".to_string(),
        "report.pdf".to_string(),
        ".pdf".to_string(),
    );
    assert_eq!(req.mode, FileDialogMode::Save);
    assert_eq!(req.title, "Save as");
    assert_eq!(req.initial_file_name, "report.pdf");
    assert_eq!(req.accept_filters, vec![".pdf".to_string()]);
}

/// The window defaults: the home page at 1280 by 720, windowed, untitled.
#[test]
fn window_options_default() {
    let d = WindowOptions::default();
    assert_eq!(d.url, "https://hamaluik.ca/");
    assert_eq!(d.title, None);
    assert!(!d.maximized);
    assert!(!d.fullscreen);
    assert_eq!(d.size, Some((1280, 720)));
    assert!(d.window_icon.is_none());
    assert!(d.window_app_icon.is_none());
}

/// The setup plan for a fully configured window: create and attach the
/// view, show, then title, icons, centered size, maximize, fullscreen, in
/// exactly that order.
#[test]
fn window_plan_full_options() {
    let options = WindowOptions {
        url: "https://example.test/".to_string(),
        title: Some("A window".to_string()),
        maximized: true,
        fullscreen: true,
        size: Some((800, 600)),
        window_icon: Some(vec![1, 2, 3]),
        window_app_icon: Some(vec![4, 5]),
    };
    let d = window_delegate::allocate(options, Some(91), Some(92));
    assert!(!d.is_frameless());
    assert!(d.can_resize());
    assert!(d.can_maximize());
    assert!(d.can_minimize());
    assert!(d.can_close());

    let plan = d.window_delegate_created();
    assert_eq!(plan.len(), 9);
    match &plan[0] {
        WindowSetupStep::CreateBrowserView(url, settings) => {
            assert_eq!(url, "https://example.test/");
            assert!(settings.databases_disabled);
            assert!(settings.local_storage_disabled);
            assert!(settings.application_cache_disabled);
        }
        _ => panic!("the view is created first"),
    }
    assert!(matches!(plan[1], WindowSetupStep::AttachBrowserView));
    assert!(matches!(plan[2], WindowSetupStep::Show));
    match &plan[3] {
        WindowSetupStep::SetTitle(t) => assert_eq!(t, "A window"),
        _ => panic!("the title follows the show"),
    }
    assert!(matches!(plan[4], WindowSetupStep::SetWindowIcon(91)));
    assert!(matches!(plan[5], WindowSetupStep::SetWindowAppIcon(92)));
    assert!(matches!(plan[6], WindowSetupStep::CenterWindow(800, 600)));
    assert!(matches!(plan[7], WindowSetupStep::Maximize));
    assert!(matches!(plan[8], WindowSetupStep::SetFullscreen(true)));
}

/// The setup plan for a bare window holds only the three fixed steps and
/// the centered default size.
#[test]
fn window_plan_default_options() {
    let d = window_delegate::allocate(WindowOptions::default(), None, None);
    let plan = d.window_delegate_created();
    assert_eq!(plan.len(), 4);
    assert!(matches!(plan[0], WindowSetupStep::CreateBrowserView(..)));
    assert!(matches!(plan[1], WindowSetupStep::AttachBrowserView));
    assert!(matches!(plan[2], WindowSetupStep::Show));
    assert!(matches!(plan[3], WindowSetupStep::CenterWindow(1280, 720)));
}

/// The engine settings: sandbox always off, the requested port, the
/// command-line flag as asked, logging at info only for debug builds.
#[test]
fn settings_for_initialization() {
    let s = build_settings(Some(9222), true, true);
    assert!(s.no_sandbox);
    assert_eq!(s.remote_debugging_port, Some(9222));
    assert!(s.command_line_args_disabled);
    assert_eq!(s.log_severity, LOG_SEVERITY_INFO);

    let release = build_settings(None, false, false);
    assert_eq!(release.remote_debugging_port, None);
    assert!(!release.command_line_args_disabled);
    assert_eq!(release.log_severity, LOG_SEVERITY_ERROR);
}

/// A helper process exits with the engine's code; the browser process
/// (code -1) continues.
#[test]
fn exit_decision_after_execute() {
    assert!(should_exit_after_execute(0));
    assert!(should_exit_after_execute(3));
    assert!(!should_exit_after_execute(-1));
}

/// Initialization succeeds exactly when the engine reported success; the
/// failure carries the fixed message.
#[test]
fn initialize_follows_engine_report() {
    assert!(Cef::initialize(true).is_ok());
    match Cef::initialize(false) {
        Ok(_) => panic!("initialization must fail"),
        Err(e) => assert_eq!(e.message(), "failed to initialize"),
    }
}

/// An opened window's delegate carries two references: the allocator's
/// and the engine's.
#[test]
fn open_window_hands_engine_a_reference() {
    let cef = Cef::initialize(true).ok().expect("initialized");
    let mut d = cef.open_window(WindowOptions::default(), None, None);
    assert!(!d.ref_count.has_one_ref());
    assert!(!d.ref_count.release());
    assert!(d.ref_count.has_one_ref());
}
