//! Choosing where an exported image goes.

use vstd::prelude::*;
use crate::launch::{has_png_extension, is_png_path, path_extension};
use crate::text::{
    is_blank, is_blank_seq, signed_decimal_seq, signed_decimal_string, trim, trim_seq,
};

verus! {

/// What `std::path::PathBuf::set_extension(path, "png")` does: the path it
/// leaves, and its return value, which tells whether `path` has a file name.
pub uninterp spec fn png_extension_set(path: Seq<char>) -> (Seq<char>, bool);

/// The path `std::path::PathBuf::set_extension(path, "png")` leaves.
pub open spec fn path_with_png_extension(path: Seq<char>) -> Seq<char> {
    png_extension_set(path).0
}

/// Whether `path` has a file name, as `set_extension` reports it.
pub open spec fn path_has_file_name(path: Seq<char>) -> bool {
    png_extension_set(path).1
}

/// `std::path::PathBuf::from(path)` with `set_extension("png")` applied: the
/// resulting path as text, and the method's return value. Claimed: both are the
/// named [`png_extension_set`] of `path`. As the method's documentation says, when
/// it returns true the path's extension is now `png`, and when it returns false
/// (no file name, as for `/` or `..`) it did nothing.
#[verifier::external_body]
fn set_png_extension(path: &str) -> (r: (String, bool))
    ensures
        (r.0@, r.1) == png_extension_set(path@),
        r.1 ==> path_extension(r.0@) == Some("png"@),
        !r.1 ==> r.0@ == path@,
{
    let mut buf = std::path::PathBuf::from(path);
    let has_file_name = buf.set_extension("png");
    (buf.to_string_lossy().into_owned(), has_file_name)
}

/// The path a save goes to: `path` itself when it already names a PNG file,
/// otherwise `path` with its extension replaced by `png`.
pub open spec fn png_save_path(path: Seq<char>) -> Seq<char> {
    if is_png_path(path) {
        path
    } else {
        path_with_png_extension(path)
    }
}

/// Makes sure a chosen save path ends in a `png` extension.
pub fn ensure_png_extension(path: String) -> (r: String)
    ensures
        r@ == png_save_path(path@),
        png_save_path(r@) == r@,
        is_png_path(r@) || r@ == path@,
        path_has_file_name(path@) ==> is_png_path(r@),
{
    if has_png_extension(path.as_str()) {
        path
    } else {
        let (r, _) = set_png_extension(path.as_str());
        proof {
            if path_extension(r@) == Some("png"@) {
                assert(crate::text::eq_ignore_ascii_case_seq("png"@, "png"@));
            }
        }
        r
    }
}

/// What became of the save dialog.
#[derive(Debug, PartialEq, Eq)]
pub enum SaveDialogOutcome {
    /// The user picked this path.
    Chosen(String),
    /// The user closed the dialog without picking a path.
    Cancelled,
    /// The dialog failed; the text says how.
    Failed(String),
}

/// The failure text for a dialog that did not exit successfully and was not
/// cancelled: it exited with another code, or was stopped by a signal (no code).
pub open spec fn save_dialog_failure(exit_code: Option<i32>) -> Seq<char> {
    match exit_code {
        Some(code) => "zenity save dialog failed with exit code "@ + signed_decimal_seq(code as int),
        None => "zenity save dialog terminated unexpectedly"@,
    }
}

/// Reads the result of the save dialog: on success the trimmed output is the
/// chosen path (given a `png` extension), empty output or exit code 1 mean the
/// user cancelled, and anything else is a failure.
pub fn interpret_save_dialog(succeeded: bool, exit_code: Option<i32>, stdout: &str) -> (outcome:
    SaveDialogOutcome)
    ensures
        succeeded && is_blank_seq(stdout@) ==> outcome == SaveDialogOutcome::Cancelled,
        succeeded && !is_blank_seq(stdout@) ==> (outcome matches SaveDialogOutcome::Chosen(path)
            && path@ == png_save_path(trim_seq(stdout@))),
        !succeeded && exit_code == Some(1i32) ==> outcome == SaveDialogOutcome::Cancelled,
        !succeeded && exit_code != Some(1i32) ==> (outcome matches SaveDialogOutcome::Failed(
            message) && message@ == save_dialog_failure(exit_code)),
{
    if succeeded {
        if is_blank(stdout) {
            return SaveDialogOutcome::Cancelled;
        }
        let selected = trim(stdout);
        return SaveDialogOutcome::Chosen(ensure_png_extension(selected));
    }
    match exit_code {
        Some(code) => {
            if code == 1 {
                SaveDialogOutcome::Cancelled
            } else {
                let mut message = "zenity save dialog failed with exit code ".to_owned();
                let digits = signed_decimal_string(code as i64);
                message.append(digits.as_str());
                SaveDialogOutcome::Failed(message)
            }
        },
        None => SaveDialogOutcome::Failed("zenity save dialog terminated unexpectedly".to_owned()),
    }
}

} // verus!
