//! Building the two asynchronous browser-host operations: printing the
//! current page to a PDF file and running a native file dialog.
//!
//! Each function prepares the complete, fixed configuration the engine
//! primitive is to be invoked with; performing the operation and waiting
//! for its callback is the engine's asynchronous work.

use vstd::prelude::*;

use crate::v8_file_dialog_handler::FileDialogMode;

verus! {

/// How the engine should place margins on an exported page.
#[derive(Clone, Copy, PartialEq, Eq, Structural, Debug)]
pub enum PdfMarginType {
    /// The engine's default margins.
    Default,
    /// Margins taken from the explicit margin fields.
    Custom,
}

/// The engine's PDF print configuration. Page dimensions are in microns.
#[derive(Clone, Copy, PartialEq, Eq, Structural, Debug)]
pub struct PdfPrintSettings {
    pub page_width: i32,
    pub page_height: i32,
    pub scale_factor: i32,
    pub margin_top: i32,
    pub margin_right: i32,
    pub margin_bottom: i32,
    pub margin_left: i32,
    pub margin_type: PdfMarginType,
    pub header_footer_enabled: bool,
    pub selection_only: bool,
    pub landscape: bool,
    pub backgrounds_enabled: bool,
}

/// The fixed export configuration: an A4 page (210 mm by 297 mm, in
/// microns), unscaled portrait, default margins, no headers or footers,
/// the whole page, backgrounds kept.
pub open spec fn spec_pdf_print_settings() -> PdfPrintSettings {
    PdfPrintSettings {
        page_width: 210000,
        page_height: 297000,
        scale_factor: 100,
        margin_top: 0,
        margin_right: 0,
        margin_bottom: 0,
        margin_left: 0,
        margin_type: PdfMarginType::Default,
        header_footer_enabled: false,
        selection_only: false,
        landscape: false,
        backgrounds_enabled: true,
    }
}

/// The fixed export configuration, as [`spec_pdf_print_settings`] states it.
pub fn pdf_print_settings() -> (s: PdfPrintSettings)
    ensures
        s == spec_pdf_print_settings(),
{
    PdfPrintSettings {
        page_width: 210000,
        page_height: 297000,
        scale_factor: 100,
        margin_top: 0,
        margin_right: 0,
        margin_bottom: 0,
        margin_left: 0,
        margin_type: PdfMarginType::Default,
        header_footer_enabled: false,
        selection_only: false,
        landscape: false,
        backgrounds_enabled: true,
    }
}

/// A fully prepared print-to-PDF invocation: the destination path and the
/// fixed settings.
pub struct PdfPrintRequest {
    /// Where the exported file is to be written.
    pub path: String,
    /// The fixed export configuration.
    pub settings: PdfPrintSettings,
}

/// Prepares the print-to-PDF invocation for the given destination path.
pub fn print_to_pdf(path: String) -> (r: PdfPrintRequest)
    ensures
        r.path@ == path@,
        r.settings == spec_pdf_print_settings(),
{
    PdfPrintRequest { path, settings: pdf_print_settings() }
}

/// A fully prepared file-dialog invocation: mode, texts, and the filter
/// list, which always holds exactly the one supplied filter.
pub struct FileDialogRequest {
    /// Pick an existing file or name a new one.
    pub mode: FileDialogMode,
    /// The dialog's title.
    pub title: String,
    /// The file name the dialog starts from.
    pub initial_file_name: String,
    /// The accepted-extension filters offered to the user.
    pub accept_filters: Vec<String>,
}

/// Prepares the file-dialog invocation: the single supplied filter becomes
/// the whole filter list.
pub fn run_file_dialog(
    mode: FileDialogMode,
    title: String,
    initial_file_name: String,
    filter: String,
) -> (r: FileDialogRequest)
    ensures
        r.mode == mode,
        r.title@ == title@,
        r.initial_file_name@ == initial_file_name@,
        r.accept_filters@.len() == 1,
        r.accept_filters@[0]@ == filter@,
{
    let mut accept_filters: Vec<String> = Vec::new();
    accept_filters.push(filter);
    FileDialogRequest { mode, title, initial_file_name, accept_filters }
}

} // verus!
