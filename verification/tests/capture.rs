use std::path::PathBuf;

use snapture::capture::file_path_from_uri;
use snapture::error::SnaptureError;

#[test]
fn file_uris_become_local_paths() {
    let path = file_path_from_uri("file:///tmp/Screenshot%20one.png").unwrap();
    assert_eq!(path, PathBuf::from("/tmp/Screenshot one.png"));
    let path = file_path_from_uri("file://localhost/home/me/shot.png").unwrap();
    assert_eq!(path, PathBuf::from("/home/me/shot.png"));
}

#[test]
fn uris_of_other_hosts_are_invalid_file_uris() {
    match file_path_from_uri("https://example.com/shot.png") {
        Err(SnaptureError::InvalidUri(uri)) => assert_eq!(uri, "https://example.com/shot.png"),
        other => panic!("unexpected result: {other:?}"),
    }
}

#[test]
fn text_that_is_no_uri_gives_the_parse_error() {
    match file_path_from_uri("shot.png") {
        Err(SnaptureError::Message(message)) => {
            assert_eq!(message, "relative URL without a base")
        }
        other => panic!("unexpected result: {other:?}"),
    }
}
