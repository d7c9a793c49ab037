//! The browser-process callback the engine invokes when a native file
//! dialog is dismissed: it decodes the first selected path, treats an
//! absent or empty path list as cancellation, and forwards the outcome to
//! the completion listener registered with the request, when one was.

use vstd::prelude::*;

use crate::refcount::RefCount;
use crate::utf16::{decode_utf16_lossy, decode_utf16_replace};

verus! {

/// The completion callback handed to the engine's run-file-dialog
/// primitive.
pub struct RunFileDialogCallback {
    /// The engine-mandated reference count.
    pub ref_count: RefCount,
    /// Whether a completion listener was registered with the request.
    pub has_on_done: bool,
}

/// The wide strings of a selected-path list.
pub open spec fn path_list_views(paths: Seq<Vec<u16>>) -> Seq<Seq<u16>> {
    paths.map_values(|p: Vec<u16>| p@)
}

/// The outcome of a dismissed dialog: the first selected path, decoded, or
/// nothing when the engine handed no list or an empty one — the user
/// cancelled.
pub open spec fn spec_dialog_outcome(paths: Option<Seq<Seq<u16>>>) -> Option<Seq<char>> {
    match paths {
        Some(list) => if list.len() >= 1 {
            Some(decode_utf16_replace(list[0]))
        } else {
            None
        },
        None => None,
    }
}

impl RunFileDialogCallback {
    /// The engine reports the dialog dismissed with the selected paths, or
    /// with nothing on cancellation. The outcome — the first path, decoded,
    /// or no path — is delivered to the listener exactly when one was
    /// registered.
    pub fn on_file_dialog_dismissed(&self, file_paths: &Option<Vec<Vec<u16>>>) -> (r: Option<
        Option<String>,
    >)
        ensures
            ({
                let outcome = spec_dialog_outcome(
                    match file_paths {
                        Some(list) => Some(path_list_views(list@)),
                        None => None,
                    },
                );
                match (r, outcome) {
                    (Some(Some(s)), Some(q)) => s@ == q,
                    (Some(None), None) => true,
                    (None, _) => !self.has_on_done,
                    _ => false,
                }
            }),
            r is Some <==> self.has_on_done,
    {
        if !self.has_on_done {
            return None;
        }
        match file_paths {
            Some(list) => {
                if list.len() >= 1 {
                    let decoded = decode_utf16_lossy(&list[0]);
                    proof {
                        assert(path_list_views(list@)[0] == list@[0]@);
                    }
                    Some(Some(decoded))
                } else {
                    Some(None)
                }
            },
            None => Some(None),
        }
    }
}

/// A freshly allocated callback with its allocator's single reference.
pub fn allocate(has_on_done: bool) -> (c: RunFileDialogCallback)
    ensures
        c.ref_count.count() == 1,
        c.has_on_done == has_on_done,
{
    RunFileDialogCallback { ref_count: RefCount::new(), has_on_done }
}

} // verus!
