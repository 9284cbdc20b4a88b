use snapture::app::extraction_status_message;
use snapture::editor::document::{
    fit_crop_to_image, overlay_supersample_factor, plan_flattened_render, RenderPlan,
};
use snapture::services::ocr::{
    bundled_model_path, ensure_file_exists, invert_channels,
    join_recognized_line_options, join_recognized_lines, recognize_text_in, DETECTION_MODEL_FILE, RECOGNITION_MODEL_FILE,
};
use ocrs::{OcrEngine, OcrEngineParams};
use snapture::services::save::{ensure_png_extension, interpret_save_dialog, SaveDialogOutcome};

#[test]
fn save_paths_get_a_png_extension() {
    assert_eq!(ensure_png_extension(String::from("/tmp/shot")), "/tmp/shot.png");
    assert_eq!(ensure_png_extension(String::from("/tmp/shot.jpg")), "/tmp/shot.png");
    assert_eq!(ensure_png_extension(String::from("/tmp/shot.PNG")), "/tmp/shot.PNG");
    assert_eq!(ensure_png_extension(String::from("/tmp/shot.png")), "/tmp/shot.png");
    let once = ensure_png_extension(String::from("notes.txt"));
    assert_eq!(once, "notes.png");
    assert_eq!(ensure_png_extension(once.clone()), once);
}

#[test]
fn save_dialog_results_are_read() {
    assert_eq!(
        interpret_save_dialog(true, Some(0), "/home/me/shot\n"),
        SaveDialogOutcome::Chosen(String::from("/home/me/shot.png"))
    );
    assert_eq!(interpret_save_dialog(true, Some(0), "  \n"), SaveDialogOutcome::Cancelled);
    assert_eq!(interpret_save_dialog(false, Some(1), ""), SaveDialogOutcome::Cancelled);
    assert_eq!(
        interpret_save_dialog(false, Some(5), ""),
        SaveDialogOutcome::Failed(String::from("zenity save dialog failed with exit code 5"))
    );
    assert_eq!(
        interpret_save_dialog(false, Some(-2), ""),
        SaveDialogOutcome::Failed(String::from("zenity save dialog failed with exit code -2"))
    );
    assert_eq!(
        interpret_save_dialog(false, None, ""),
        SaveDialogOutcome::Failed(String::from("zenity save dialog terminated unexpectedly"))
    );
}

#[test]
fn recognized_lines_are_trimmed_filtered_and_joined() {
    let lines = vec![
        String::from("  Hello "),
        String::from("x"),
        String::from(" "),
        String::from("é"),
        String::from("World\t"),
    ];
    assert_eq!(join_recognized_lines(&lines), "Hello\né\nWorld");
    assert_eq!(join_recognized_lines(&Vec::new()), "");
    assert_eq!(join_recognized_lines(&vec![String::from("a")]), "");
}

#[test]
fn extraction_status_counts_lines() {
    assert_eq!(
        extraction_status_message("one\ntwo", "screenshot"),
        "Extracted 2 lines from the screenshot."
    );
    assert_eq!(
        extraction_status_message("only", "crop selection"),
        "Extracted 1 line from the crop selection."
    );
    assert_eq!(
        extraction_status_message(" \n ", "screenshot"),
        "No text detected in the screenshot."
    );
}

#[test]
fn inverting_pixels_twice_restores_them() {
    let original = vec![0u8, 1, 128, 254, 255];
    let mut pixels = original.clone();
    invert_channels(&mut pixels);
    assert_eq!(pixels, vec![255, 254, 127, 1, 0]);
    invert_channels(&mut pixels);
    assert_eq!(pixels, original);
}

#[test]
fn models_live_under_the_project_directory() {
    assert_eq!(
        bundled_model_path("/opt/snapture", DETECTION_MODEL_FILE),
        "/opt/snapture/models/text-detection.rten"
    );
    assert_eq!(
        bundled_model_path("/opt/snapture/", RECOGNITION_MODEL_FILE),
        "/opt/snapture/models/text-recognition.rten"
    );
}

#[test]
fn missing_models_are_reported() {
    assert!(ensure_file_exists("/m/a.rten", "detection model", true).is_ok());
    assert_eq!(
        ensure_file_exists("/m/a.rten", "detection model", false).unwrap_err(),
        "detection model not found at /m/a.rten. Put the OCRS model file there before running OCR."
    );
}

#[test]
fn supersampling_shrinks_with_image_size() {
    assert_eq!(overlay_supersample_factor(1920, 1080), 3);
    assert_eq!(overlay_supersample_factor(3000, 1000), 3);
    assert_eq!(overlay_supersample_factor(3000, 1001), 2);
    assert_eq!(overlay_supersample_factor(3840, 2160), 2);
    assert_eq!(overlay_supersample_factor(5000, 2000), 1);
    assert_eq!(overlay_supersample_factor(u32::MAX, u32::MAX), 1);
}

#[test]
fn render_plan_follows_the_image_size() {
    assert_eq!(plan_flattened_render(800, 600, 0), RenderPlan::BaseOnly);
    assert_eq!(
        plan_flattened_render(800, 600, 2),
        RenderPlan::Supersampled { width: 2400, height: 1800, factor: 3 }
    );
    assert_eq!(
        plan_flattened_render(2000, 4000, 1),
        RenderPlan::Supersampled { width: 4000, height: 8000, factor: 2 }
    );
    assert_eq!(plan_flattened_render(4000, 4000, 1), RenderPlan::Direct);
    assert_eq!(plan_flattened_render(u32::MAX, 0, 1), RenderPlan::Direct);
}

#[test]
fn crops_are_cut_back_to_the_image() {
    assert_eq!(fit_crop_to_image(10, 20, 50, 50, 100, 100), (50, 50));
    assert_eq!(fit_crop_to_image(80, 90, 50, 50, 100, 100), (20, 10));
    assert_eq!(fit_crop_to_image(120, 0, 5, 5, 100, 100), (0, 5));
}

#[test]
fn smaller_images_never_get_coarser_supersampling() {
    let sizes = [(1u32, 1u32), (1000, 1000), (3000, 1000), (3000, 1001), (4000, 2125), (4000, 2126), (8000, 8000)];
    for pair in sizes.windows(2) {
        let (small, large) = (pair[0], pair[1]);
        assert!(
            overlay_supersample_factor(small.0, small.1) >= overlay_supersample_factor(large.0, large.1)
        );
    }
}

#[test]
fn a_path_with_a_file_name_keeps_its_directory() {
    assert_eq!(ensure_png_extension(String::from("/tmp/dir.d/shot.tar.gz")), "/tmp/dir.d/shot.tar.png");
    assert_eq!(ensure_png_extension(String::from("/tmp/.hidden")), "/tmp/.hidden.png");
    assert_eq!(ensure_png_extension(String::from("/")), "/");
}

#[test]
fn pixel_data_the_engine_cannot_take_is_refused() {
    let engine = OcrEngine::new(OcrEngineParams::default()).unwrap();
    assert_eq!(
        recognize_text_in(&engine, &vec![0u8; 12], 0, 4),
        Err(String::from("channel count is not 1, 3 or 4"))
    );
    assert_eq!(
        recognize_text_in(&engine, &vec![0u8; 13], 2, 2),
        Err(String::from("data length is not a multiple of `width * height`"))
    );
    assert_eq!(
        recognize_text_in(&engine, &vec![0u8; 8], 2, 2),
        Err(String::from("channel count is not 1, 3 or 4"))
    );
}

#[test]
fn an_engine_without_models_fails_at_detection() {
    let engine = OcrEngine::new(OcrEngineParams::default()).unwrap();
    assert_eq!(
        recognize_text_in(&engine, &vec![255u8; 12], 2, 2),
        Err(String::from("text detection failed"))
    );
}

#[test]
fn joining_follows_the_path_rules() {
    assert_eq!(bundled_model_path("", "model.rten"), "models/model.rten");
    assert_eq!(bundled_model_path("/opt", "/elsewhere/model.rten"), "/elsewhere/model.rten");
}

#[test]
fn lines_without_text_are_skipped_and_the_rest_kept_in_order() {
    let lines = vec![
        Some(String::from("  first line ")),
        None,
        Some(String::from("x")),
        Some(String::from("second")),
        None,
    ];
    assert_eq!(join_recognized_line_options(&lines), "first line\nsecond");
    assert_eq!(join_recognized_line_options(&vec![None, None]), "");
}
