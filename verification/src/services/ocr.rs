//! Text extraction around the OCR engine: locating the bundled models, preparing
//! the image, and cleaning up what the engine recognized.

use vstd::prelude::*;
use crate::text::{push_char, trim, trim_seq};
use rten_imageproc::RotatedRect;
use ocrs::{ImageSource, OcrEngine, OcrInput, TextLine};

verus! {

/// File name of the bundled text-detection model.
pub const DETECTION_MODEL_FILE: &'static str = "text-detection.rten";

/// File name of the bundled text-recognition model.
pub const RECOGNITION_MODEL_FILE: &'static str = "text-recognition.rten";

/// The path `std::path::Path::join(base, component)` produces on Unix: an
/// absolute `component` (one that starts at the root) replaces `base`; otherwise
/// it is appended, after a `/` unless `base` is empty or already ends in one.
pub open spec fn joined_path(base: Seq<char>, component: Seq<char>) -> Seq<char> {
    if component.len() > 0 && component[0] == '/' {
        component
    } else if base.len() > 0 && base.last() != '/' {
        base + seq!['/'] + component
    } else {
        base + component
    }
}

/// `std::path::Path::new(base).join(component)`, as text. Claimed, as the
/// documentation of `PathBuf::push` says for Unix: the result is [`joined_path`]
/// of the two arguments.
#[verifier::external_body]
fn join_path(base: &str, component: &str) -> (r: String)
    ensures
        r@ == joined_path(base@, component@),
{
    std::path::Path::new(base).join(component).to_string_lossy().into_owned()
}

/// Where a bundled model file lies: in `models/` under the project directory.
pub fn bundled_model_path(project_dir: &str, file_name: &str) -> (path: String)
    ensures
        path@ == joined_path(joined_path(project_dir@, "models"@), file_name@),
{
    let models = join_path(project_dir, "models");
    join_path(models.as_str(), file_name)
}

/// The complaint about a model file that is not where it should be.
pub open spec fn missing_model_message(label: Seq<char>, path: Seq<char>) -> Seq<char> {
    label + " not found at "@ + path + ". Put the OCRS model file there before running OCR."@
}

/// Refuses to go on when the model file at `path` is missing (`is_file` tells
/// whether a regular file is there).
pub fn ensure_file_exists(path: &str, label: &str, is_file: bool) -> (r: Result<(), String>)
    ensures
        is_file ==> r is Ok,
        !is_file ==> (r matches Err(message) && message@ == missing_model_message(label@, path@)),
{
    if is_file {
        Ok(())
    } else {
        let mut message = label.to_owned();
        message.append(" not found at ");
        message.append(path);
        message.append(". Put the OCRS model file there before running OCR.");
        Err(message)
    }
}

/// Every channel value turned to its complement.
pub open spec fn inverted(channels: Seq<u8>) -> Seq<u8> {
    Seq::new(channels.len(), |i: int| (255 - channels[i]) as u8)
}

/// Turns a dark image light for the recognizer: replaces every channel value `v`
/// of the raw pixel data by `255 - v`.
pub fn invert_channels(channels: &mut Vec<u8>)
    ensures
        final(channels)@ == inverted(old(channels)@),
{
    let n = channels.len();
    let mut i: usize = 0;
    while i < n
        invariant
            n == channels@.len(),
            n == old(channels)@.len(),
            i <= n,
            forall|k: int| 0 <= k < i ==> channels@[k] == 255 - old(channels)@[k],
            forall|k: int| i <= k < n ==> channels@[k] == old(channels)@[k],
        decreases n - i,
    {
        let v = channels[i];
        channels.set(i, 255 - v);
        i = i + 1;
    }
    assert(channels@ =~= inverted(old(channels)@));
}

/// Inverting twice gives the same pixels back.
pub proof fn lemma_inverting_twice_restores(channels: Seq<u8>)
    ensures
        inverted(inverted(channels)) == channels,
{
    assert(inverted(inverted(channels)) =~= channels);
}

/// Whether a recognized line (already trimmed) is kept: it must be longer than
/// one byte in UTF-8, that is, hold two characters or one non-ASCII character.
pub open spec fn keeps_recognized_line(line: Seq<char>) -> bool {
    line.len() >= 2 || (line.len() == 1 && line[0] as u32 >= 0x80)
}

/// The trimmed lines that are kept, in recognition order.
pub open spec fn kept_lines(lines: Seq<Seq<char>>) -> Seq<Seq<char>>
    decreases lines.len(),
{
    if lines.len() == 0 {
        Seq::empty()
    } else {
        let rest = kept_lines(lines.drop_last());
        let line = trim_seq(lines.last());
        if keeps_recognized_line(line) {
            rest.push(line)
        } else {
            rest
        }
    }
}

/// Lines joined with a `'\n'` between each two.
pub open spec fn joined_lines(lines: Seq<Seq<char>>) -> Seq<char>
    decreases lines.len(),
{
    if lines.len() == 0 {
        Seq::empty()
    } else if lines.len() == 1 {
        lines[0]
    } else {
        joined_lines(lines.drop_last()) + seq!['\n'] + lines.last()
    }
}

/// The text of each recognized line.
pub open spec fn line_texts(lines: Seq<String>) -> Seq<Seq<char>> {
    lines.map_values(|line: String| line@)
}

fn keeps_line(line: &str) -> (r: bool)
    ensures
        r == keeps_recognized_line(line@),
{
    let n = line.unicode_len();
    n >= 2 || (n == 1 && line.get_char(0) as u32 >= 0x80)
}

/// Builds the extracted text from the lines the recognizer returned: each line
/// is trimmed, lines of one byte or less are dropped, and the rest are joined
/// with newlines.
pub fn join_recognized_lines(lines: &Vec<String>) -> (text: String)
    ensures
        text@ == joined_lines(kept_lines(line_texts(lines@))),
{
    let ghost texts = line_texts(lines@);
    let mut text = String::new();
    let mut kept: usize = 0;
    let mut i: usize = 0;
    while i < lines.len()
        invariant
            texts == line_texts(lines@),
            i <= lines.len(),
            kept <= i,
            kept == kept_lines(texts.subrange(0, i as int)).len(),
            text@ == joined_lines(kept_lines(texts.subrange(0, i as int))),
        decreases lines.len() - i,
    {
        let ghost prefix = texts.subrange(0, i as int);
        let ghost next = texts.subrange(0, i + 1);
        assert(next.drop_last() =~= prefix);
        assert(next.last() == lines@[i as int]@);
        let line = trim(lines[i].as_str());
        if keeps_line(line.as_str()) {
            let ghost k = kept_lines(prefix);
            assert(k.push(line@).drop_last() =~= k);
            if kept > 0 {
                push_char(&mut text, '\n');
            }
            text.append(line.as_str());
            kept = kept + 1;
        }
        i = i + 1;
    }
    assert(texts.subrange(0, lines.len() as int) =~= texts);
    text
}


/// The lines the recognizer found text in, in order: the `None` entries (lines
/// without recognized text) left out.
pub open spec fn present_lines(lines: Seq<Option<String>>) -> Seq<String>
    decreases lines.len(),
{
    if lines.len() == 0 {
        Seq::empty()
    } else {
        let rest = present_lines(lines.drop_last());
        match lines.last() {
            Some(line) => rest.push(line),
            None => rest,
        }
    }
}

/// The extracted text for what the recognizer returned per line.
pub open spec fn recognized_text(lines: Seq<Option<String>>) -> Seq<char> {
    joined_lines(kept_lines(line_texts(present_lines(lines))))
}

/// Builds the extracted text from the recognizer's answer for each line: lines
/// without text are skipped, and the rest are cleaned up and joined as by
/// [`join_recognized_lines`].
pub fn join_recognized_line_options(lines: &Vec<Option<String>>) -> (text: String)
    ensures
        text@ == recognized_text(lines@),
{
    let mut present: Vec<String> = Vec::new();
    let mut i: usize = 0;
    while i < lines.len()
        invariant
            i <= lines.len(),
            present@ == present_lines(lines@.subrange(0, i as int)),
        decreases lines.len() - i,
    {
        let ghost prefix = lines@.subrange(0, i as int);
        assert(lines@.subrange(0, i + 1).drop_last() =~= prefix);
        match &lines[i] {
            Some(line) => present.push(line.clone()),
            None => {},
        }
        i = i + 1;
    }
    assert(lines@.subrange(0, lines.len() as int) =~= lines@);
    join_recognized_lines(&present)
}

/// Makes `ocrs::OcrEngine` known to Verus as an opaque type: the loaded
/// detection and recognition models.
#[verifier::external_type_specification]
#[verifier::external_body]
pub struct ExOcrEngine(OcrEngine);

/// Makes `ocrs::OcrInput` known to Verus as an opaque type: an image prepared
/// for the engine.
#[verifier::external_type_specification]
#[verifier::external_body]
pub struct ExOcrInput(OcrInput);

/// Makes `ocrs::ImageSource` known to Verus as an opaque type: a view of raw
/// pixel data.
#[verifier::external_type_specification]
#[verifier::external_body]
pub struct ExImageSource<'a>(ImageSource<'a>);

/// Makes `ocrs::TextLine` known to Verus as an opaque type: one recognized line.
#[verifier::external_type_specification]
#[verifier::external_body]
pub struct ExTextLine(TextLine);

/// Makes `rten_imageproc::RotatedRect` known to Verus as an opaque type: the box
/// of a detected word.
#[verifier::external_type_specification]
#[verifier::external_body]
pub struct ExRotatedRect(RotatedRect);

/// The text of `ocrs::ImageSourceError::UnsupportedChannelCount`.
pub open spec fn unsupported_channels_text() -> Seq<char> {
    "channel count is not 1, 3 or 4"@
}

/// The text of `ocrs::ImageSourceError::InvalidDataLength`.
pub open spec fn invalid_data_length_text() -> Seq<char> {
    "data length is not a multiple of `width * height`"@
}

/// Why `len` bytes of `width` by `height` pixels are no image the engine takes,
/// or `None` when they are one: there must be pixels, a whole number of bytes
/// per pixel, and 1, 3 or 4 of them.
pub open spec fn pixel_data_problem(len: int, width: u32, height: u32) -> Option<Seq<char>> {
    let pixels: int = width * height;
    if pixels == 0 {
        Some(unsupported_channels_text())
    } else if len % pixels != 0 {
        Some(invalid_data_length_text())
    } else {
        let channels = len / pixels;
        if channels == 1 || channels == 3 || channels == 4 {
            None
        } else {
            Some(unsupported_channels_text())
        }
    }
}

/// `ocrs::ImageSource::from_bytes(pixels, (width, height))`, with an error
/// rendered by its `Display` impl. Claimed, as its source shows: it accepts the
/// data exactly when [`pixel_data_problem`] finds none, and otherwise fails with
/// the text of the problem found. It computes `width * height` in `u32`, hence
/// the bound.
#[verifier::external_body]
fn image_source<'a>(pixels: &'a [u8], width: u32, height: u32) -> (r: Result<ImageSource<'a>, String>)
    requires
        width * height <= u32::MAX,
    ensures
        match r {
            Ok(_) => pixel_data_problem(pixels@.len() as int, width, height) is None,
            Err(message) => pixel_data_problem(pixels@.len() as int, width, height) == Some(message@),
        },
{
    ImageSource::from_bytes(pixels, (width, height)).map_err(|error| error.to_string())
}

/// `ocrs::OcrEngine::prepare_input`; `None` stands for its error. Nothing is
/// claimed about the prepared image.
#[verifier::external_body]
fn prepare_input(engine: &OcrEngine, source: ImageSource<'_>) -> Option<OcrInput> {
    engine.prepare_input(source).ok()
}

/// `ocrs::OcrEngine::detect_words`; `None` stands for its error. The boxes come
/// from the detection model; nothing is claimed about them.
#[verifier::external_body]
fn detect_words(engine: &OcrEngine, input: &OcrInput) -> Option<Vec<RotatedRect>> {
    engine.detect_words(input).ok()
}

/// `ocrs::OcrEngine::find_text_lines`: groups word boxes into lines in reading
/// order. Nothing is claimed about the grouping.
#[verifier::external_body]
fn find_text_lines(engine: &OcrEngine, input: &OcrInput, words: &Vec<RotatedRect>) -> Vec<Vec<RotatedRect>> {
    engine.find_text_lines(input, words.as_slice())
}

/// `ocrs::OcrEngine::recognize_text`; `None` stands for its error. A line without
/// recognized text is `None` in the result. Nothing is claimed about the text.
#[verifier::external_body]
fn recognize_text(
    engine: &OcrEngine,
    input: &OcrInput,
    lines: &Vec<Vec<RotatedRect>>,
) -> Option<Vec<Option<TextLine>>> {
    engine.recognize_text(input, lines.as_slice()).ok()
}

/// The characters of a recognized line, rendered by `ocrs::TextLine`'s `Display`
/// impl. Nothing is claimed about them.
#[verifier::external_body]
fn text_line_text(line: &TextLine) -> String {
    line.to_string()
}

/// The recognizer's answer for each line as text: one entry per line, in order,
/// holding the line's rendered text where the recognizer found text and `None`
/// where it did not.
pub fn line_answers(recognized: &Vec<Option<TextLine>>) -> (answers: Vec<Option<String>>)
    ensures
        answers@.len() == recognized@.len(),
        forall|k: int| 0 <= k < recognized@.len() ==> (#[trigger] answers@[k] is Some <==> recognized@[k] is Some),
{
    let mut answers: Vec<Option<String>> = Vec::new();
    let mut i: usize = 0;
    while i < recognized.len()
        invariant
            i <= recognized.len(),
            answers@.len() == i,
            forall|k: int| 0 <= k < i ==> (#[trigger] answers@[k] is Some <==> recognized@[k] is Some),
        decreases recognized.len() - i,
    {
        match &recognized[i] {
            Some(line) => answers.push(Some(text_line_text(line))),
            None => answers.push(None),
        }
        i = i + 1;
    }
    answers
}

/// A line the recognizer found no text in changes nothing in the result.
pub proof fn lemma_unanswered_line_changes_nothing(lines: Seq<Option<String>>)
    ensures
        recognized_text(lines.push(None)) == recognized_text(lines),
{
    assert(lines.push(None).drop_last() =~= lines);
}

/// An answer that survives the cleanup is added, trimmed, after the text so far,
/// on a line of its own; one that does not survive changes nothing.
pub proof fn lemma_answer_is_appended(lines: Seq<Option<String>>, answer: String)
    ensures
        keeps_recognized_line(trim_seq(answer@)) ==> recognized_text(lines.push(Some(answer)))
            == if recognized_text(lines).len() == 0 {
            trim_seq(answer@)
        } else {
            recognized_text(lines) + seq!['\n'] + trim_seq(answer@)
        },
        !keeps_recognized_line(trim_seq(answer@)) ==> recognized_text(lines.push(Some(answer)))
            == recognized_text(lines),
{
    let present = present_lines(lines);
    assert(lines.push(Some(answer)).drop_last() =~= lines);
    assert(present_lines(lines.push(Some(answer))) == present.push(answer));
    let texts = line_texts(present);
    assert(line_texts(present.push(answer)) =~= texts.push(answer@));
    assert(texts.push(answer@).drop_last() =~= texts);
    let kept = kept_lines(texts);
    lemma_kept_lines_nonempty(texts);
    lemma_joined_lines_nonempty(kept);
    if kept.len() == 0 {
        assert(joined_lines(kept) == Seq::<char>::empty());
    }
    if keeps_recognized_line(trim_seq(answer@)) {
        assert(kept.push(trim_seq(answer@)).drop_last() =~= kept);
    }
}

/// Every line kept by the cleanup holds at least one character.
proof fn lemma_kept_lines_nonempty(lines: Seq<Seq<char>>)
    ensures
        forall|k: int| 0 <= k < kept_lines(lines).len() ==> #[trigger] kept_lines(lines)[k].len() > 0,
    decreases lines.len(),
{
    if lines.len() > 0 {
        lemma_kept_lines_nonempty(lines.drop_last());
        let rest = kept_lines(lines.drop_last());
        let line = trim_seq(lines.last());
        if keeps_recognized_line(line) {
            assert forall|k: int| 0 <= k < rest.push(line).len() implies #[trigger] rest.push(line)[k].len() > 0 by {
                if k < rest.len() {
                    assert(rest.push(line)[k] == rest[k]);
                }
            }
        }
    }
}

/// Joining lines that each hold a character gives no empty text.
proof fn lemma_joined_lines_nonempty(lines: Seq<Seq<char>>)
    requires
        forall|k: int| 0 <= k < lines.len() ==> #[trigger] lines[k].len() > 0,
    ensures
        lines.len() > 0 <==> joined_lines(lines).len() > 0,
    decreases lines.len(),
{
    if lines.len() > 1 {
        assert(lines.last() == lines[lines.len() - 1]);
        lemma_joined_lines_nonempty(lines.drop_last());
    } else if lines.len() == 1 {
        assert(lines[0].len() > 0);
    }
}

/// The failure texts of the engine's steps.
pub open spec fn is_engine_failure(message: Seq<char>) -> bool {
    ||| message == "failed to prepare OCR input"@
    ||| message == "text detection failed"@
    ||| message == "text recognition failed"@
}

/// Reads the text in `width` by `height` pixels of raw data (rows of 1, 3 or 4
/// channels) with `engine`: the image is prepared, words are detected, grouped
/// into lines and recognized, and the answers are cleaned up by
/// [`join_recognized_line_options`]. Data the engine cannot take is refused with the
/// reason; a failing step gives that step's failure text.
pub fn recognize_text_in(engine: &OcrEngine, pixels: &Vec<u8>, width: u32, height: u32) -> (r: Result<String, String>)
    requires
        width * height <= u32::MAX,
    ensures
        pixel_data_problem(pixels@.len() as int, width, height) matches Some(problem) ==> (r matches Err(
            message,
        ) && message@ == problem),
        pixel_data_problem(pixels@.len() as int, width, height) is None ==> match r {
            Ok(text) => exists|lines: Seq<Option<String>>| text@ == recognized_text(lines),
            Err(message) => is_engine_failure(message@),
        },
{
    let source = match image_source(pixels.as_slice(), width, height) {
        Ok(source) => source,
        Err(message) => return Err(message),
    };
    let input = match prepare_input(engine, source) {
        Some(input) => input,
        None => return Err("failed to prepare OCR input".to_owned()),
    };
    let words = match detect_words(engine, &input) {
        Some(words) => words,
        None => return Err("text detection failed".to_owned()),
    };
    let line_boxes = find_text_lines(engine, &input, &words);
    let recognized = match recognize_text(engine, &input, &line_boxes) {
        Some(recognized) => recognized,
        None => return Err("text recognition failed".to_owned()),
    };
    let texts = line_answers(&recognized);
    Ok(join_recognized_line_options(&texts))
}

} // verus!
