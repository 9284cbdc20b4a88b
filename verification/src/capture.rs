//! Where the screenshot the desktop portal took lies on disk.

use vstd::prelude::*;
use crate::error::{AppResult, SnaptureError};

verus! {

/// Makes `std::path::PathBuf` known to Verus as an opaque type: the path of the
/// captured file, which may hold bytes that are not UTF-8.
#[verifier::external_type_specification]
#[verifier::external_body]
pub struct ExPathBuf(std::path::PathBuf);

/// Makes `url::Url` known to Verus as an opaque type.
#[verifier::external_type_specification]
#[verifier::external_body]
pub struct ExUrl(url::Url);

/// Whether `url::Url::parse` accepts `uri`.
pub uninterp spec fn uri_parses(uri: Seq<char>) -> bool;

/// The text of the `url::ParseError` that `url::Url::parse` gives for `uri`.
pub uninterp spec fn url_parse_error(uri: Seq<char>) -> Seq<char>;

/// Whether the URL parsed from `uri` names a file on this machine, as
/// `url::Url::to_file_path` judges it: it has a path and no host other than
/// `localhost`.
pub uninterp spec fn uri_names_local_file(uri: Seq<char>) -> bool;

/// A URL together with the text it was parsed from.
struct ParsedUri {
    url: url::Url,
    source: Ghost<Seq<char>>,
}

/// `url::Url::parse(uri)`, with a parse error rendered by its `Display` impl.
/// Claimed: the call succeeds exactly when [`uri_parses`] holds of `uri`, the URL
/// it gives is recorded as parsed from `uri`, and a failure's text is the named
/// [`url_parse_error`] of `uri`.
#[verifier::external_body]
fn parse_uri(uri: &str) -> (r: Result<ParsedUri, String>)
    ensures
        r is Ok <==> uri_parses(uri@),
        r matches Ok(parsed) ==> parsed.source@ == uri@,
        r matches Err(message) ==> message@ == url_parse_error(uri@),
{
    match url::Url::parse(uri) {
        Ok(url) => Ok(ParsedUri { url, source: Ghost(uri@) }),
        Err(error) => Err(error.to_string()),
    }
}

/// `url::Url::to_file_path` on a parsed URL. Claimed: it gives a path exactly
/// when the URL names a local file ([`uri_names_local_file`] of the text it was
/// parsed from); as everywhere in this library, running out of memory (here a
/// refused `try_reserve`) is left aside.
#[verifier::external_body]
fn to_file_path(parsed: &ParsedUri) -> (r: Option<std::path::PathBuf>)
    ensures
        r is Some <==> uri_names_local_file(parsed.source@),
{
    parsed.url.to_file_path().ok()
}

/// The local path of the file that a `file:` URI names. A URI that does not parse
/// gives the parse error's text; one that parses but names no local file is an
/// invalid file URI.
pub fn file_path_from_uri(uri: &str) -> (r: AppResult<std::path::PathBuf>)
    ensures
        !uri_parses(uri@) ==> (r matches Err(SnaptureError::Message(message)) && message@
            == url_parse_error(uri@)),
        uri_parses(uri@) && !uri_names_local_file(uri@) ==> (r matches Err(
            SnaptureError::InvalidUri(u),
        ) && u@ == uri@),
        uri_parses(uri@) && uri_names_local_file(uri@) ==> r is Ok,
{
    match parse_uri(uri) {
        Err(message) => Err(SnaptureError::Message(message)),
        Ok(parsed) => match to_file_path(&parsed) {
            Some(path) => Ok(path),
            None => Err(SnaptureError::InvalidUri(uri.to_owned())),
        },
    }
}

} // verus!
