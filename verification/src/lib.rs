//! A screen-text recognition pipeline: capture a display into a full-frame
//! artifact, crop a selection out of it, hand the selection to whichever
//! recognition backend the platform offers, and shape the delivery of the
//! recognized text or of a typed failure.

pub mod capture;
pub mod codec;
pub mod cropper;
pub mod delivery;
pub mod dispatch;
pub mod raster;
pub mod orchestrator;
pub mod store;
pub mod text;
