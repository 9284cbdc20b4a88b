//! What the program does at start-up, decided from its command-line arguments.

use vstd::prelude::*;
use crate::error::{AppResult, SnaptureError};
use crate::text::{
    decimal_seq, decimal_string, eq_ignore_ascii_case, eq_ignore_ascii_case_seq,
};

verus! {

/// What the command line asks for.
#[derive(Debug, PartialEq, Eq)]
pub enum LaunchRequest {
    /// No argument: capture a screenshot straight to the clipboard.
    CaptureToClipboard,
    /// One argument: open that PNG file in the editor.
    OpenFile(String),
}

/// The complaint about a command line with `count` paths on it.
pub open spec fn too_many_paths_message(count: nat) -> Seq<char> {
    "expected exactly zero or one PNG file path, got "@ + decimal_seq(count)
}

/// Decides what to do from the arguments that follow the program name.
pub fn resolve_launch_request(args: Vec<String>) -> (r: AppResult<LaunchRequest>)
    ensures
        args.len() == 0 ==> r matches Ok(LaunchRequest::CaptureToClipboard),
        args.len() == 1 ==> (r matches Ok(LaunchRequest::OpenFile(path)) && path@ == args@[0]@),
        args.len() >= 2 ==> (r matches Err(SnaptureError::Message(message)) && message@
            == too_many_paths_message(args.len() as nat)),
{
    let count = args.len();
    if count == 0 {
        Ok(LaunchRequest::CaptureToClipboard)
    } else if count == 1 {
        let mut args = args;
        let path = args.remove(0);
        Ok(LaunchRequest::OpenFile(path))
    } else {
        let mut message = "expected exactly zero or one PNG file path, got ".to_owned();
        let digits = decimal_string(count as u64);
        message.append(digits.as_str());
        Err(SnaptureError::Message(message))
    }
}

/// The extension of a path's file name, as `std::path::Path::extension` finds it.
pub uninterp spec fn path_extension(path: Seq<char>) -> Option<Seq<char>>;

/// `std::path::Path::new(path).extension()`, as text. Claimed: the result is the
/// named [`path_extension`] of `path` (the extension of a `&str` path is itself valid UTF-8).
#[verifier::external_body]
fn file_extension(path: &str) -> (extension: Option<String>)
    ensures
        match extension {
            Some(e) => path_extension(path@) == Some(e@),
            None => path_extension(path@) is None,
        },
{
    std::path::Path::new(path).extension().map(|e| e.to_string_lossy().into_owned())
}

/// A path names a PNG file when its extension is `png` in any ASCII case.
pub open spec fn is_png_path(path: Seq<char>) -> bool {
    path_extension(path) matches Some(e) && eq_ignore_ascii_case_seq(e, "png"@)
}

/// Whether `path` carries a `png` extension (in any ASCII case).
pub fn has_png_extension(path: &str) -> (r: bool)
    ensures
        r == is_png_path(path@),
{
    match file_extension(path) {
        Some(extension) => eq_ignore_ascii_case(extension.as_str(), "png"),
        None => false,
    }
}

/// The complaint about a path that does not name a PNG file.
pub open spec fn not_png_message(path: Seq<char>) -> Seq<char> {
    "expected a PNG file path, got "@ + path
}

/// Refuses a path that does not carry a `png` extension; the first check made on
/// a path given on the command line.
pub fn check_png_path(path: &str) -> (r: AppResult<()>)
    ensures
        is_png_path(path@) ==> r is Ok,
        !is_png_path(path@) ==> (r matches Err(SnaptureError::Message(message)) && message@
            == not_png_message(path@)),
{
    if has_png_extension(path) {
        Ok(())
    } else {
        let mut message = "expected a PNG file path, got ".to_owned();
        message.append(path);
        Err(SnaptureError::Message(message))
    }
}

/// The error for a PNG path that names no existing file.
pub fn png_not_found(path: &str) -> (e: SnaptureError)
    ensures
        e matches SnaptureError::Message(message) && message@ == "PNG file not found: "@ + path@,
{
    let mut message = "PNG file not found: ".to_owned();
    message.append(path);
    SnaptureError::Message(message)
}

/// Refuses an absolute PNG path under which no regular file lies (`is_file` tells
/// whether one does); the last check made on a path given on the command line.
pub fn check_png_file_exists(path: &str, is_file: bool) -> (r: AppResult<()>)
    ensures
        is_file ==> r is Ok,
        !is_file ==> (r matches Err(SnaptureError::Message(message)) && message@
            == "PNG file not found: "@ + path@),
{
    if is_file {
        Ok(())
    } else {
        Err(png_not_found(path))
    }
}

/// The `file:` URL that `url::Url::from_file_path` builds for an absolute path.
pub uninterp spec fn file_url_for_path(path: Seq<char>) -> Seq<char>;

/// Whether a Unix path is absolute: it starts at the root.
pub open spec fn is_absolute_path(path: Seq<char>) -> bool {
    path.len() > 0 && path[0] == '/'
}

/// `url::Url::from_file_path(path)`, rendered as text with `Url::to_string`. Claimed:
/// on Unix the call refuses exactly the paths that do not start at the root, and
/// otherwise gives the named [`file_url_for_path`] of `path`.
#[verifier::external_body]
fn file_url(path: &str) -> (url: Option<String>)
    ensures
        url is Some <==> is_absolute_path(path@),
        url matches Some(u) ==> u@ == file_url_for_path(path@),
{
    url::Url::from_file_path(path).ok().map(|u| u.to_string())
}

/// The `file:` URI of an absolute path, recorded as the document's source.
pub fn file_uri_from_path(path: &str) -> (r: AppResult<String>)
    ensures
        is_absolute_path(path@) ==> (r matches Ok(uri) && uri@ == file_url_for_path(path@)),
        !is_absolute_path(path@) ==> (r matches Err(SnaptureError::InvalidUri(p)) && p@ == path@),
{
    match file_url(path) {
        Some(uri) => Ok(uri),
        None => Err(SnaptureError::InvalidUri(path.to_owned())),
    }
}

} // verus!
