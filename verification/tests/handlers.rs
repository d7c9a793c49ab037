//! The capability handlers: lifecycle, certificate pinning, display,
//! context menu and print.

use cef_simple::context_menu_handler;
use cef_simple::display_handler;
use cef_simple::display_handler::{map_severity, HostLogLevel};
use cef_simple::life_span_handler;
use cef_simple::print_handler;
use cef_simple::print_pdf_callback;
use cef_simple::request_handler;
use cef_simple::request_handler::CertDecision;
use cef_simple::run_file_dialog_callback;

/// Given instance set {A}: creating A then closing A empties the set and
/// triggers exactly one quit signal.
#[test]
fn lifecycle_single_instance_quits_on_close() {
    let mut h = life_span_handler::allocate();
    h.on_after_created(0xA);
    assert!(!h.is_closing);

    assert!(!h.do_close(0xA));
    assert!(h.is_closing);

    let quit = h.on_before_close(0xA);
    assert!(quit);
    assert!(h.browser_list.is_empty());
}

/// Given {A, B}: closing A alone must not signal quit; closing B
/// afterwards must.
#[test]
fn lifecycle_two_instances_quit_only_after_both_close() {
    let mut h = life_span_handler::allocate();
    h.on_after_created(0xA);
    h.on_after_created(0xB);

    assert!(!h.do_close(0xA));
    assert!(!h.is_closing);

    let quit_a = h.on_before_close(0xA);
    assert!(!quit_a);
    assert_eq!(h.browser_list, vec![0xB]);

    let quit_b = h.on_before_close(0xB);
    assert!(quit_b);
}

/// Closing an instance that is not in the set changes nothing and signals
/// quit only if the set was already empty.
#[test]
fn lifecycle_close_of_unknown_instance() {
    let mut h = life_span_handler::allocate();
    h.on_after_created(0xA);
    let quit = h.on_before_close(0xC);
    assert!(!quit);
    assert_eq!(h.browser_list, vec![0xA]);
}

/// A certificate whose serial matches the fixed trusted serial proceeds;
/// any other serial is blocked with no continuation invoked.
#[test]
fn certificate_pinning() {
    let h = request_handler::allocate();
    let pinned = request_handler::trusted_serial_bytes();
    assert_eq!(pinned.len(), 20);
    assert_eq!(h.on_certificate_error(&pinned), CertDecision::Proceed);

    let mut other = pinned.clone();
    other[19] = 0x57;
    assert_eq!(h.on_certificate_error(&other), CertDecision::Blocked);

    let short: Vec<u8> = vec![0x01, 0x55];
    assert_eq!(h.on_certificate_error(&short), CertDecision::Blocked);

    let empty: Vec<u8> = Vec::new();
    assert_eq!(h.on_certificate_error(&empty), CertDecision::Blocked);
}

/// The console severity mapping: debug stays debug, default and info are
/// info, warning is warn, error and fatal are error, unknown is info.
#[test]
fn severity_mapping() {
    assert_eq!(map_severity(display_handler::LOG_SEVERITY_DEFAULT), HostLogLevel::Info);
    assert_eq!(map_severity(display_handler::LOG_SEVERITY_DEBUG), HostLogLevel::Debug);
    assert_eq!(map_severity(display_handler::LOG_SEVERITY_INFO), HostLogLevel::Info);
    assert_eq!(map_severity(display_handler::LOG_SEVERITY_WARNING), HostLogLevel::Warn);
    assert_eq!(map_severity(display_handler::LOG_SEVERITY_ERROR), HostLogLevel::Error);
    assert_eq!(map_severity(display_handler::LOG_SEVERITY_FATAL), HostLogLevel::Error);
    assert_eq!(map_severity(42), HostLogLevel::Info);
}

/// A console message is decoded and mapped, and reported handled.
#[test]
fn console_message_forwarded() {
    let h = display_handler::allocate(77);
    let units: Vec<u16> = "page said so".encode_utf16().collect();
    let (entry, handled) = h.on_console_message(display_handler::LOG_SEVERITY_WARNING, &units);
    assert!(handled);
    assert_eq!(entry.level, HostLogLevel::Warn);
    assert_eq!(entry.text, "page said so");
}

/// Fullscreen changes are forwarded to the owning window; tooltips are
/// suppressed as handled.
#[test]
fn display_forwards_fullscreen_and_suppresses_tooltips() {
    let h = display_handler::allocate(77);
    assert_eq!(h.on_fullscreen_mode_change(true), (77, true));
    assert_eq!(h.on_fullscreen_mode_change(false), (77, false));
    assert!(h.on_tooltip());
}

/// The context-menu handler clears the model: no context menu appears.
#[test]
fn context_menu_cleared() {
    let h = context_menu_handler::allocate();
    let mut model: Vec<i32> = vec![1, 2, 3];
    h.on_before_context_menu(&mut model);
    assert!(model.is_empty());
}

/// The PDF page size is A4 at the supplied device resolution, rounded
/// down: at 96 units per inch, 793 by 1122; at 254, exactly 2100 by 2970.
#[test]
fn pdf_paper_size_is_a4() {
    let h = print_handler::allocate();
    let s = h.get_pdf_paper_size(96);
    assert_eq!(s.width, 793);
    assert_eq!(s.height, 1122);

    let exact = h.get_pdf_paper_size(254);
    assert_eq!(exact.width, 2100);
    assert_eq!(exact.height, 2970);

    let zero = h.get_pdf_paper_size(0);
    assert_eq!(zero.width, 0);
    assert_eq!(zero.height, 0);
}

/// The print-finished callback forwards the outcome exactly when a
/// listener was registered.
#[test]
fn pdf_print_finished_forwarding() {
    let with = print_pdf_callback::allocate(true);
    assert_eq!(with.on_pdf_print_finished(true), Some(true));
    assert_eq!(with.on_pdf_print_finished(false), Some(false));

    let without = print_pdf_callback::allocate(false);
    assert_eq!(without.on_pdf_print_finished(true), None);
}

/// The dialog-dismissed callback decodes the first selected path, treats
/// an absent or empty list as cancellation, and stays silent without a
/// listener.
#[test]
fn file_dialog_dismissed_forwarding() {
    let cb = run_file_dialog_callback::allocate(true);

    let picked: Vec<Vec<u16>> =
        vec!["/home/user/a.txt".encode_utf16().collect(), "/ignored".encode_utf16().collect()];
    assert_eq!(
        cb.on_file_dialog_dismissed(&Some(picked)),
        Some(Some("/home/user/a.txt".to_string()))
    );

    assert_eq!(cb.on_file_dialog_dismissed(&Some(Vec::new())), Some(None));
    assert_eq!(cb.on_file_dialog_dismissed(&None), Some(None));

    let silent = run_file_dialog_callback::allocate(false);
    assert_eq!(silent.on_file_dialog_dismissed(&None), None);
}
