use snapture::error::SnaptureError;
use snapture::launch::{
    check_png_file_exists, check_png_path, file_uri_from_path, has_png_extension, png_not_found, resolve_launch_request,
    LaunchRequest,
};

#[test]
fn resolves_capture_to_clipboard_when_no_path_is_passed() {
    let request = resolve_launch_request(Vec::<String>::new()).unwrap();
    assert_eq!(request, LaunchRequest::CaptureToClipboard);
}

#[test]
fn resolves_single_path_when_one_argument_is_passed() {
    let request = resolve_launch_request(vec![String::from("sample.png")]).unwrap();
    assert_eq!(request, LaunchRequest::OpenFile(String::from("sample.png")));
}

#[test]
fn rejects_multiple_paths() {
    let error = resolve_launch_request(vec![
        String::from("first.png"),
        String::from("second.png"),
    ])
    .unwrap_err();

    assert_eq!(
        error.to_string(),
        "expected exactly zero or one PNG file path, got 2"
    );
}

#[test]
fn rejects_non_png_paths() {
    let error = check_png_path("sample.jpg").unwrap_err();
    assert_eq!(error.to_string(), "expected a PNG file path, got sample.jpg");
}

#[test]
fn counts_many_paths_in_the_complaint() {
    let args: Vec<String> = (0..12).map(|i| format!("{i}.png")).collect();
    let error = resolve_launch_request(args).unwrap_err();
    assert_eq!(
        error.to_string(),
        "expected exactly zero or one PNG file path, got 12"
    );
}

#[test]
fn png_extension_ignores_ascii_case() {
    assert!(has_png_extension("shot.png"));
    assert!(has_png_extension("/tmp/Shot.PNG"));
    assert!(has_png_extension("dir.d/a.b.pNg"));
    assert!(!has_png_extension("shot.jpg"));
    assert!(!has_png_extension("shot"));
    assert!(!has_png_extension(".png"));
    assert!(!has_png_extension("shot.png.bak"));
    assert!(!has_png_extension("shot.pngx"));
}

#[test]
fn accepts_png_paths_in_any_case() {
    assert!(check_png_path("capture.PNG").is_ok());
    assert!(check_png_path("/home/user/capture.png").is_ok());
}

#[test]
fn missing_png_is_reported_with_its_path() {
    let error = png_not_found("/tmp/gone.png");
    assert_eq!(error.to_string(), "PNG file not found: /tmp/gone.png");
}

#[test]
fn absolute_paths_become_file_uris() {
    assert_eq!(
        file_uri_from_path("/tmp/shot.png").unwrap(),
        "file:///tmp/shot.png"
    );
    assert_eq!(
        file_uri_from_path("/tmp/my shot.png").unwrap(),
        "file:///tmp/my%20shot.png"
    );
}

#[test]
fn relative_paths_have_no_file_uri() {
    match file_uri_from_path("shot.png") {
        Err(SnaptureError::InvalidUri(path)) => assert_eq!(path, "shot.png"),
        other => panic!("unexpected result: {other:?}"),
    }
    let error = file_uri_from_path("shot.png").unwrap_err();
    assert_eq!(error.to_string(), "invalid file URI: shot.png");
}

#[test]
fn a_missing_png_file_is_reported() {
    assert!(check_png_file_exists("/tmp/shot.png", true).is_ok());
    match check_png_file_exists("/tmp/missing.png", false) {
        Err(SnaptureError::Message(message)) => {
            assert_eq!(message, "PNG file not found: /tmp/missing.png")
        }
        other => panic!("unexpected result: {other:?}"),
    }
}
