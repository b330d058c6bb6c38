use vstd::prelude::*;
use crate::dispatch::{OcrFailure, RecognitionResult, ResultView};

verus! {

/// What delivery pushes to the downstream text sink: recognized text, or a
/// typed failure to be rendered as its reason-specific notice.
#[derive(Clone, Debug, PartialEq, Eq)]
pub enum SinkText {
    Recognized(Vec<u8>),
    Notice(OcrFailure),
}

/// Model of the sink text, over byte sequences.
#[verifier::ext_equal]
pub enum SinkTextView {
    Recognized(Seq<u8>),
    Notice(OcrFailure),
}

impl View for SinkText {
    type V = SinkTextView;

    open spec fn view(&self) -> SinkTextView {
        match self {
            SinkText::Recognized(t) => SinkTextView::Recognized(t@),
            SinkText::Notice(f) => SinkTextView::Notice(*f),
        }
    }
}

/// One delivery: what goes to the text sink, and whether the result-display
/// surface is to be shown afterwards.
#[derive(Clone, Debug, PartialEq, Eq)]
pub struct DeliveryAction {
    pub sink_text: SinkText,
    pub show_display: bool,
}

/// Model of a delivery.
#[verifier::ext_equal]
pub struct DeliveryActionView {
    pub sink_text: SinkTextView,
    pub show_display: bool,
}

impl View for DeliveryAction {
    type V = DeliveryActionView;

    open spec fn view(&self) -> DeliveryActionView {
        DeliveryActionView { sink_text: self.sink_text@, show_display: self.show_display }
    }
}

/// ResultDelivery's shape: recognized text goes to the sink and the display
/// surface is shown once; a failure becomes a notice and the display stays
/// closed; a skipped recognition touches neither sink nor display.
pub open spec fn delivery_of(r: ResultView) -> Option<DeliveryActionView> {
    match r {
        ResultView::Recognized(t) => Some(
            DeliveryActionView { sink_text: SinkTextView::Recognized(t), show_display: true },
        ),
        ResultView::Failed(f) => Some(
            DeliveryActionView { sink_text: SinkTextView::Notice(f), show_display: false },
        ),
        ResultView::Skipped => None,
    }
}

/// ResultDelivery: shape what is pushed to the text sink and whether the
/// result-display surface is shown.
pub fn deliver(r: RecognitionResult) -> (a: Option<DeliveryAction>)
    ensures
        ({
            let d = delivery_of(r@);
            match a {
                Some(act) => d == Some(act@),
                None => d is None,
            }
        }),
{
    match r {
        RecognitionResult::Recognized(t) => Some(
            DeliveryAction { sink_text: SinkText::Recognized(t), show_display: true },
        ),
        RecognitionResult::Failed(f) => Some(
            DeliveryAction { sink_text: SinkText::Notice(f), show_display: false },
        ),
        RecognitionResult::Skipped => None,
    }
}

/// The notice for each failure reason, exactly as it reaches the sink.
pub open spec fn failure_message_spec(f: OcrFailure) -> Seq<char> {
    match f {
        OcrFailure::FileUnreadable => "OCR recognition failed: unable to read file"@,
        OcrFailure::DecodeError => "OCR recognition failed: image decoding error"@,
        OcrFailure::EngineInitFailure => "OCR recognition failed: OCR engine initialization failed"@,
        OcrFailure::RecognitionFailure => "OCR recognition failed: recognition timeout"@,
        OcrFailure::NoTextFound => "OCR recognition failed: text not recognized"@,
        OcrFailure::HelperProcessFailure => "OCR recognition failed: ocr binary failed"@,
    }
}

/// The human-readable, reason-specific notice for a failure.
pub fn failure_message(f: &OcrFailure) -> (r: &'static str)
    ensures
        r@ == failure_message_spec(*f),
{
    match f {
        OcrFailure::FileUnreadable => "OCR recognition failed: unable to read file",
        OcrFailure::DecodeError => "OCR recognition failed: image decoding error",
        OcrFailure::EngineInitFailure => "OCR recognition failed: OCR engine initialization failed",
        OcrFailure::RecognitionFailure => "OCR recognition failed: recognition timeout",
        OcrFailure::NoTextFound => "OCR recognition failed: text not recognized",
        OcrFailure::HelperProcessFailure => "OCR recognition failed: ocr binary failed",
    }
}

} // verus!
