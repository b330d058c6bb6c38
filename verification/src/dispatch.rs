use vstd::prelude::*;
use crate::text::{all_blank, assemble_lines, assembled, blank_text, lemma_assembled_blank};

verus! {

/// The recognition capability active for this build: the OS-native
/// recognition service, an external helper executable, or none at all. The
/// backend is selected once, at startup, not per call.
#[derive(Clone, Copy, Debug, PartialEq, Eq, Structural)]
pub enum Backend {
    NativeService,
    HelperProcess,
    Unsupported,
}

/// Why recognition produced no text.
#[derive(Clone, Copy, Debug, PartialEq, Eq, Structural)]
pub enum OcrFailure {
    FileUnreadable,
    DecodeError,
    EngineInitFailure,
    RecognitionFailure,
    NoTextFound,
    HelperProcessFailure,
}

/// What the OS-native recognition service did with the selection artifact:
/// each step that can fail on its own is a distinct report, and success hands
/// over the recognized lines of text.
#[derive(Clone, Debug, PartialEq, Eq)]
pub enum NativeEvent {
    FileUnreadable,
    DecodeFailed,
    EngineInitFailed,
    RecognitionFailed,
    Lines(Vec<Vec<u8>>),
}

/// What the outside recognition work reported back: the native service's step
/// report, or the helper process's exit status and captured standard output.
/// `Unavailable` stands where no recognition ran at all.
#[derive(Clone, Debug, PartialEq, Eq)]
pub enum OcrEvent {
    Native(NativeEvent),
    Helper(bool, Vec<u8>),
    Unavailable,
}

/// What recognition produced: text, a typed failure, or nothing at all where
/// the platform offers no recognition capability.
#[derive(Clone, Debug, PartialEq, Eq)]
pub enum RecognitionResult {
    Recognized(Vec<u8>),
    Failed(OcrFailure),
    Skipped,
}

/// Model of a recognition result, over byte sequences.
#[verifier::ext_equal]
pub enum ResultView {
    Recognized(Seq<u8>),
    Failed(OcrFailure),
    Skipped,
}

impl View for RecognitionResult {
    type V = ResultView;

    open spec fn view(&self) -> ResultView {
        match self {
            RecognitionResult::Recognized(t) => ResultView::Recognized(t@),
            RecognitionResult::Failed(f) => ResultView::Failed(*f),
            RecognitionResult::Skipped => ResultView::Skipped,
        }
    }
}

/// Recognized text becomes a result: blank-or-empty text is the no-text-found
/// failure, never an empty success; anything else is delivered as it stands.
pub open spec fn text_result(t: Seq<u8>) -> ResultView {
    if all_blank(t) {
        ResultView::Failed(OcrFailure::NoTextFound)
    } else {
        ResultView::Recognized(t)
    }
}

/// The native backend's result for each report: every failing step keeps its
/// own reason, and recognized lines are trimmed and joined with line feeds.
pub open spec fn native_result(ev: NativeEvent) -> ResultView {
    match ev {
        NativeEvent::FileUnreadable => ResultView::Failed(OcrFailure::FileUnreadable),
        NativeEvent::DecodeFailed => ResultView::Failed(OcrFailure::DecodeError),
        NativeEvent::EngineInitFailed => ResultView::Failed(OcrFailure::EngineInitFailure),
        NativeEvent::RecognitionFailed => ResultView::Failed(OcrFailure::RecognitionFailure),
        NativeEvent::Lines(lines) => text_result(assembled(lines@)),
    }
}

/// The helper backend's result: a failing exit is the generic helper failure,
/// whatever was printed; a successful exit delivers the captured output.
pub open spec fn helper_result(exit_ok: bool, stdout: Vec<u8>) -> ResultView {
    if exit_ok {
        text_result(stdout@)
    } else {
        ResultView::Failed(OcrFailure::HelperProcessFailure)
    }
}

/// What the active backend makes of the report: nothing at all where the
/// platform has no capability, or where the report does not belong to the
/// active backend.
pub open spec fn recognize_step(b: Backend, ev: OcrEvent) -> ResultView {
    match b {
        Backend::Unsupported => ResultView::Skipped,
        Backend::NativeService => match ev {
            OcrEvent::Native(ne) => native_result(ne),
            _ => ResultView::Skipped,
        },
        Backend::HelperProcess => match ev {
            OcrEvent::Helper(exit_ok, stdout) => helper_result(exit_ok, stdout),
            _ => ResultView::Skipped,
        },
    }
}

/// PlatformOcrDispatcher: turn what the active backend's outside work
/// reported into a recognition result.
pub fn recognize(backend: &Backend, ev: OcrEvent) -> (r: RecognitionResult)
    ensures
        r@ == recognize_step(*backend, ev),
{
    match backend {
        Backend::Unsupported => RecognitionResult::Skipped,
        Backend::NativeService => match ev {
            OcrEvent::Native(ne) => match ne {
                NativeEvent::FileUnreadable => RecognitionResult::Failed(
                    OcrFailure::FileUnreadable,
                ),
                NativeEvent::DecodeFailed => RecognitionResult::Failed(OcrFailure::DecodeError),
                NativeEvent::EngineInitFailed => RecognitionResult::Failed(
                    OcrFailure::EngineInitFailure,
                ),
                NativeEvent::RecognitionFailed => RecognitionResult::Failed(
                    OcrFailure::RecognitionFailure,
                ),
                NativeEvent::Lines(lines) => {
                    let content = assemble_lines(&lines);
                    if blank_text(&content) {
                        RecognitionResult::Failed(OcrFailure::NoTextFound)
                    } else {
                        RecognitionResult::Recognized(content)
                    }
                },
            },
            _ => RecognitionResult::Skipped,
        },
        Backend::HelperProcess => match ev {
            OcrEvent::Helper(exit_ok, stdout) => {
                if !exit_ok {
                    RecognitionResult::Failed(OcrFailure::HelperProcessFailure)
                } else if blank_text(&stdout) {
                    RecognitionResult::Failed(OcrFailure::NoTextFound)
                } else {
                    RecognitionResult::Recognized(stdout)
                }
            },
            _ => RecognitionResult::Skipped,
        },
    }
}

/// Recognition never reports blank text as success: whatever the backend and
/// its report, a recognized result is neither empty nor whitespace alone.
pub proof fn lemma_no_blank_success(b: Backend, ev: OcrEvent)
    ensures
        recognize_step(b, ev) matches ResultView::Recognized(t) ==> !all_blank(t) && t.len() > 0,
{
}

/// Native recognition that yields nothing but whitespace lines ends in the
/// no-text-found failure, never in a success.
pub proof fn lemma_blank_lines_fail(lines: Vec<Vec<u8>>)
    requires
        forall|i: int| 0 <= i < lines@.len() ==> all_blank(#[trigger] lines@[i]@),
    ensures
        native_result(NativeEvent::Lines(lines)) == ResultView::Failed(OcrFailure::NoTextFound),
{
    lemma_assembled_blank(lines@);
}

} // verus!
