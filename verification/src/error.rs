//! The editor's error type.

use vstd::prelude::*;

verus! {

/// Makes `anyhow::Error` known to Verus as an opaque type, carried inside [`SnaptureError`].
#[verifier::external_type_specification]
#[verifier::external_body]
pub struct ExAnyhowError(anyhow::Error);

/// Makes `std::io::Error` known to Verus as an opaque type, carried inside [`SnaptureError`].
#[verifier::external_type_specification]
#[verifier::external_body]
pub struct ExIoError(std::io::Error);

/// Makes `image::ImageError` known to Verus as an opaque type, carried inside [`SnaptureError`].
#[verifier::external_type_specification]
#[verifier::external_body]
pub struct ExImageError(image::ImageError);

/// Makes `ashpd::Error` known to Verus as an opaque type, carried inside [`SnaptureError`].
#[verifier::external_type_specification]
#[verifier::external_body]
pub struct ExPortalError(ashpd::Error);

/// Everything that can go wrong while capturing, editing, exporting or reading text.
#[derive(Debug)]
pub enum SnaptureError {
    Anyhow(anyhow::Error),
    Io(std::io::Error),
    Image(image::ImageError),
    Portal(ashpd::Error),
    Clipboard(String),
    InvalidUri(String),
    MissingFont,
    Message(String),
}

/// The result type of fallible editor operations.
pub type AppResult<T> = Result<T, SnaptureError>;

/// The user-facing message of the errors that carry no outside error value.
pub open spec fn error_message(e: SnaptureError) -> Seq<char> {
    match e {
        SnaptureError::Clipboard(detail) => "clipboard operation failed: "@ + detail@,
        SnaptureError::InvalidUri(uri) => "invalid file URI: "@ + uri@,
        SnaptureError::MissingFont => "no suitable system font found for text rendering"@,
        SnaptureError::Message(message) => message@,
        _ => Seq::empty(),
    }
}

/// Whether the error wraps an error value of another library, whose text that
/// library renders.
pub open spec fn wraps_outside_error(e: SnaptureError) -> bool {
    e is Anyhow || e is Io || e is Image || e is Portal
}

/// The text of an `anyhow::Error`, rendered by its `Display` impl; nothing is claimed about it.
#[verifier::external_body]
fn anyhow_error_text(e: &anyhow::Error) -> String {
    format!("{}", e)
}

/// The text of a `std::io::Error`, rendered by its `Display` impl; nothing is claimed about it.
#[verifier::external_body]
fn io_error_text(e: &std::io::Error) -> String {
    format!("{}", e)
}

/// The text of an `image::ImageError`, rendered by its `Display` impl; nothing is claimed about it.
#[verifier::external_body]
fn image_error_text(e: &image::ImageError) -> String {
    format!("{}", e)
}

/// The text of an `ashpd::Error`, rendered by its `Display` impl; nothing is claimed about it.
#[verifier::external_body]
fn portal_error_text(e: &ashpd::Error) -> String {
    format!("{}", e)
}

impl SnaptureError {
    /// The message shown to the user. An error that wraps another library's error
    /// shows that error's own text.
    pub fn to_string(&self) -> (message: String)
        ensures
            !wraps_outside_error(*self) ==> message@ == error_message(*self),
    {
        match self {
            SnaptureError::Anyhow(e) => anyhow_error_text(e),
            SnaptureError::Io(e) => io_error_text(e),
            SnaptureError::Image(e) => image_error_text(e),
            SnaptureError::Portal(e) => portal_error_text(e),
            SnaptureError::Clipboard(detail) => {
                let mut message = "clipboard operation failed: ".to_owned();
                message.append(detail.as_str());
                message
            },
            SnaptureError::InvalidUri(uri) => {
                let mut message = "invalid file URI: ".to_owned();
                message.append(uri.as_str());
                message
            },
            SnaptureError::MissingFont => "no suitable system font found for text rendering".to_owned(),
            SnaptureError::Message(message) => message.clone(),
        }
    }
}

} // verus!
