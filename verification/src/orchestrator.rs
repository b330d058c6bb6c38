use vstd::prelude::*;
use crate::delivery::{deliver, delivery_of, DeliveryAction, DeliveryActionView};
use crate::dispatch::{native_result, recognize, recognize_step, Backend, NativeEvent, OcrEvent};

verus! {

/// Which helper executable the helper backend runs.
#[derive(Clone, Copy, Debug, PartialEq, Eq, Structural)]
pub enum HelperProgram {
    Apple,
    Intel,
}

/// What the caller is to do to start recognition under the active backend:
/// put the capture window on screen for the native service, run a helper
/// executable, or nothing at all.
#[derive(Clone, Copy, Debug, PartialEq, Eq, Structural)]
pub enum StartAction {
    ShowCaptureWindow,
    RunHelper(HelperProgram),
    Nothing,
}

/// The helper built for the host's CPU vendor: the Apple build for the vendor
/// string "Apple", the Intel build for every other vendor.
pub fn select_helper(cpu_vendor: &String) -> (r: HelperProgram)
    ensures
        r == (if cpu_vendor@ == "Apple"@ {
            HelperProgram::Apple
        } else {
            HelperProgram::Intel
        }),
{
    if *cpu_vendor == "Apple".to_owned() {
        HelperProgram::Apple
    } else {
        HelperProgram::Intel
    }
}

/// How a recognition request starts under each backend.
pub open spec fn start_step(b: Backend, cpu_vendor: Seq<char>) -> StartAction {
    match b {
        Backend::NativeService => StartAction::ShowCaptureWindow,
        Backend::HelperProcess => StartAction::RunHelper(
            if cpu_vendor == "Apple"@ {
                HelperProgram::Apple
            } else {
                HelperProgram::Intel
            },
        ),
        Backend::Unsupported => StartAction::Nothing,
    }
}

/// Orchestrator: begin a recognition request. The native service first needs
/// the capture window on screen, the helper backend runs the helper built for
/// the host's CPU vendor, and an unsupported platform does nothing at all.
pub fn do_ocr(backend: &Backend, cpu_vendor: &String) -> (r: StartAction)
    ensures
        r == start_step(*backend, cpu_vendor@),
{
    match backend {
        Backend::NativeService => StartAction::ShowCaptureWindow,
        Backend::HelperProcess => StartAction::RunHelper(select_helper(cpu_vendor)),
        Backend::Unsupported => StartAction::Nothing,
    }
}

/// Orchestrator: the externally triggered entry that starts recognition.
pub fn ocr(backend: &Backend, cpu_vendor: &String) -> (r: StartAction)
    ensures
        r == start_step(*backend, cpu_vendor@),
{
    do_ocr(backend, cpu_vendor)
}

/// The externally callable trigger for starting recognition.
pub fn start_ocr(backend: &Backend, cpu_vendor: &String) -> (r: StartAction)
    ensures
        r == start_step(*backend, cpu_vendor@),
{
    ocr(backend, cpu_vendor)
}

/// How a recognition request finishes under each backend: dispatch, then the
/// shape of the delivery.
pub open spec fn finish_step(b: Backend, ev: OcrEvent) -> Option<DeliveryActionView> {
    delivery_of(recognize_step(b, ev))
}

/// Orchestrator: finish a recognition request: dispatch what the backend's
/// outside work reported, then shape the delivery. On an unsupported platform
/// nothing is delivered: neither the text sink nor the display surface is
/// ever touched.
pub fn do_finish_ocr(backend: &Backend, ev: OcrEvent) -> (a: Option<DeliveryAction>)
    ensures
        ({
            let d = finish_step(*backend, ev);
            match a {
                Some(act) => d == Some(act@),
                None => d is None,
            }
        }),
        *backend is Unsupported ==> a is None,
{
    deliver(recognize(backend, ev))
}

/// The native service's whole recognition pass over the selection artifact,
/// taken as one step: what the service reported about the file at the fixed
/// selection path becomes the delivery.
pub fn do_ocr_with_cut_file_path(ev: NativeEvent) -> (a: Option<DeliveryAction>)
    ensures
        ({
            let d = delivery_of(native_result(ev));
            match a {
                Some(act) => d == Some(act@),
                None => d is None,
            }
        }),
{
    deliver(recognize(&Backend::NativeService, OcrEvent::Native(ev)))
}

/// The externally callable trigger for finishing recognition.
pub fn finish_ocr(backend: &Backend, ev: OcrEvent) -> (a: Option<DeliveryAction>)
    ensures
        ({
            let d = finish_step(*backend, ev);
            match a {
                Some(act) => d == Some(act@),
                None => d is None,
            }
        }),
        *backend is Unsupported ==> a is None,
{
    do_finish_ocr(backend, ev)
}

/// On a platform without recognition capability, finishing recognition
/// delivers nothing: no text reaches the sink and the display surface is
/// never shown, whatever was reported.
pub proof fn lemma_unsupported_is_silent(ev: OcrEvent)
    ensures
        finish_step(Backend::Unsupported, ev) is None,
{
}

} // verus!
