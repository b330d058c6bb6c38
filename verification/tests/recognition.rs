use screen_ocr::delivery::{deliver, failure_message, DeliveryAction, SinkText};
use screen_ocr::dispatch::{
    recognize, Backend, NativeEvent, OcrEvent, OcrFailure, RecognitionResult,
};
use screen_ocr::orchestrator::{
    do_finish_ocr, do_ocr, do_ocr_with_cut_file_path, finish_ocr, ocr, select_helper, start_ocr,
    HelperProgram, StartAction,
};
use screen_ocr::text::{assemble_lines, blank_text, trim_blank};
use screen_ocr::capture::{select_display, screenshot, DisplayInfo};
use screen_ocr::cropper::{cut_image, reload_selection};
use screen_ocr::store::ArtifactStore;

fn lines(texts: &[&str]) -> NativeEvent {
    NativeEvent::Lines(texts.iter().map(|t| t.as_bytes().to_vec()).collect())
}

#[test]
fn trim_strips_blank_edges_only() {
    assert_eq!(trim_blank(&b" \t hello world \r\n".to_vec()), b"hello world".to_vec());
    assert_eq!(trim_blank(&b"inner  kept".to_vec()), b"inner  kept".to_vec());
    assert_eq!(trim_blank(&b"   ".to_vec()), b"".to_vec());
    assert_eq!(trim_blank(&b"".to_vec()), b"".to_vec());
}

#[test]
fn blank_text_accepts_only_whitespace() {
    assert!(blank_text(&b"".to_vec()));
    assert!(blank_text(&b" \t\r\n".to_vec()));
    assert!(!blank_text(&b" a ".to_vec()));
}

#[test]
fn assemble_trims_lines_and_appends_line_feeds() {
    let assembled = assemble_lines(&vec![b"  Hello ".to_vec(), b"World".to_vec()]);
    assert_eq!(assembled, b"Hello\nWorld\n".to_vec());
    assert_eq!(assemble_lines(&vec![]), b"".to_vec());
}

#[test]
fn native_lines_are_recognized_with_line_feeds() {
    let r = recognize(&Backend::NativeService, OcrEvent::Native(lines(&["Hello", "World"])));
    assert_eq!(r, RecognitionResult::Recognized(b"Hello\nWorld\n".to_vec()));
}

#[test]
fn blank_recognition_is_the_no_text_failure() {
    let r = recognize(&Backend::NativeService, OcrEvent::Native(lines(&["  ", "", "\t"])));
    assert_eq!(r, RecognitionResult::Failed(OcrFailure::NoTextFound));
    let r = recognize(&Backend::NativeService, OcrEvent::Native(lines(&[])));
    assert_eq!(r, RecognitionResult::Failed(OcrFailure::NoTextFound));
    let r = recognize(&Backend::HelperProcess, OcrEvent::Helper(true, b" \n ".to_vec()));
    assert_eq!(r, RecognitionResult::Failed(OcrFailure::NoTextFound));
}

#[test]
fn native_step_failures_keep_their_reasons() {
    let cases = [
        (NativeEvent::FileUnreadable, OcrFailure::FileUnreadable),
        (NativeEvent::DecodeFailed, OcrFailure::DecodeError),
        (NativeEvent::EngineInitFailed, OcrFailure::EngineInitFailure),
        (NativeEvent::RecognitionFailed, OcrFailure::RecognitionFailure),
    ];
    for (event, reason) in cases {
        let r = recognize(&Backend::NativeService, OcrEvent::Native(event));
        assert_eq!(r, RecognitionResult::Failed(reason));
    }
}

#[test]
fn helper_success_delivers_stdout_verbatim() {
    let a = do_finish_ocr(&Backend::HelperProcess, OcrEvent::Helper(true, b"HELLO".to_vec()))
        .expect("a delivery happens");
    assert_eq!(a.sink_text, SinkText::Recognized(b"HELLO".to_vec()));
    assert!(a.show_display);
}

#[test]
fn helper_failure_is_generic_regardless_of_stdout() {
    let a = do_finish_ocr(&Backend::HelperProcess, OcrEvent::Helper(false, b"HELLO".to_vec()))
        .expect("a notice is delivered");
    assert_eq!(a.sink_text, SinkText::Notice(OcrFailure::HelperProcessFailure));
    assert!(!a.show_display);
    assert_eq!(
        failure_message(&OcrFailure::HelperProcessFailure),
        "OCR recognition failed: ocr binary failed"
    );
}

#[test]
fn unsupported_platform_never_delivers() {
    assert_eq!(do_finish_ocr(&Backend::Unsupported, OcrEvent::Unavailable), None);
    assert_eq!(
        do_finish_ocr(&Backend::Unsupported, OcrEvent::Native(lines(&["Hello"]))),
        None
    );
    assert_eq!(
        do_finish_ocr(&Backend::Unsupported, OcrEvent::Helper(true, b"HELLO".to_vec())),
        None
    );
    assert_eq!(finish_ocr(&Backend::Unsupported, OcrEvent::Unavailable), None);
}

#[test]
fn mismatched_reports_deliver_nothing() {
    assert_eq!(
        do_finish_ocr(&Backend::NativeService, OcrEvent::Helper(true, b"HELLO".to_vec())),
        None
    );
    assert_eq!(
        do_finish_ocr(&Backend::HelperProcess, OcrEvent::Native(lines(&["Hello"]))),
        None
    );
    assert_eq!(deliver(RecognitionResult::Skipped), None);
}

#[test]
fn native_pass_over_selection_delivers() {
    let a = do_ocr_with_cut_file_path(lines(&[" Hi ", "there"])).expect("a delivery happens");
    assert_eq!(a.sink_text, SinkText::Recognized(b"Hi\nthere\n".to_vec()));
    assert!(a.show_display);
    let a = do_ocr_with_cut_file_path(NativeEvent::FileUnreadable).expect("a notice is delivered");
    assert_eq!(a.sink_text, SinkText::Notice(OcrFailure::FileUnreadable));
    assert!(!a.show_display);
}

#[test]
fn failure_messages_are_reason_specific() {
    assert_eq!(
        failure_message(&OcrFailure::FileUnreadable),
        "OCR recognition failed: unable to read file"
    );
    assert_eq!(
        failure_message(&OcrFailure::DecodeError),
        "OCR recognition failed: image decoding error"
    );
    assert_eq!(
        failure_message(&OcrFailure::EngineInitFailure),
        "OCR recognition failed: OCR engine initialization failed"
    );
    assert_eq!(
        failure_message(&OcrFailure::RecognitionFailure),
        "OCR recognition failed: recognition timeout"
    );
    assert_eq!(
        failure_message(&OcrFailure::NoTextFound),
        "OCR recognition failed: text not recognized"
    );
}

#[test]
fn start_actions_follow_the_backend() {
    let apple = String::from("Apple");
    let intel = String::from("GenuineIntel");
    assert_eq!(do_ocr(&Backend::NativeService, &intel), StartAction::ShowCaptureWindow);
    assert_eq!(
        do_ocr(&Backend::HelperProcess, &apple),
        StartAction::RunHelper(HelperProgram::Apple)
    );
    assert_eq!(
        do_ocr(&Backend::HelperProcess, &intel),
        StartAction::RunHelper(HelperProgram::Intel)
    );
    assert_eq!(do_ocr(&Backend::Unsupported, &intel), StartAction::Nothing);
    assert_eq!(ocr(&Backend::NativeService, &apple), StartAction::ShowCaptureWindow);
    assert_eq!(start_ocr(&Backend::Unsupported, &apple), StartAction::Nothing);
}

#[test]
fn select_helper_matches_the_vendor_string() {
    assert_eq!(select_helper(&String::from("Apple")), HelperProgram::Apple);
    assert_eq!(select_helper(&String::from("GenuineIntel")), HelperProgram::Intel);
    assert_eq!(select_helper(&String::from("apple")), HelperProgram::Intel);
}

#[test]
fn failed_recognition_never_shows_the_display() {
    let reasons = [
        OcrFailure::FileUnreadable,
        OcrFailure::DecodeError,
        OcrFailure::EngineInitFailure,
        OcrFailure::RecognitionFailure,
        OcrFailure::NoTextFound,
        OcrFailure::HelperProcessFailure,
    ];
    for reason in reasons {
        let a = deliver(RecognitionResult::Failed(reason)).expect("a notice is delivered");
        assert_eq!(a.sink_text, SinkText::Notice(reason));
        assert!(!a.show_display);
    }
}

#[test]
fn end_to_end_native_scenario() {
    let displays = vec![DisplayInfo { x: 0, y: 0, width: 64, height: 32 }];
    let chosen = select_display(&displays, 0, 0).expect("the origin matches");
    assert_eq!(chosen, 0);

    let mut frame_pixels: Vec<u8> = Vec::new();
    for i in 0..(64 * 32) {
        frame_pixels.push((i % 256) as u8);
        frame_pixels.push((i % 7) as u8);
        frame_pixels.push((i % 11) as u8);
        frame_pixels.push(255);
    }
    let frame = screen_ocr::raster::Image { width: 64, height: 32, pixels: frame_pixels };

    let mut store = ArtifactStore::empty();
    screenshot(&mut store, &frame);
    cut_image(&mut store, 10, 10, 50, 20);
    let selection = reload_selection(&store).expect("the selection decodes");
    assert_eq!(selection.width, 50);
    assert_eq!(selection.height, 20);

    let mut deliveries: Vec<DeliveryAction> = Vec::new();
    if let Some(a) = do_finish_ocr(&Backend::NativeService, OcrEvent::Native(lines(&["Hello", "World"]))) {
        deliveries.push(a);
    }
    assert_eq!(deliveries.len(), 1);
    assert_eq!(deliveries[0].sink_text, SinkText::Recognized(b"Hello\nWorld\n".to_vec()));
    let shown = deliveries.iter().filter(|a| a.show_display).count();
    assert_eq!(shown, 1);
}
