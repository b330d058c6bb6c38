use vstd::prelude::*;
use crate::codec::{encode_png, png_bytes_of, MAX_PIXEL_COUNT};
use crate::raster::{Image, ImageView};
use crate::store::{ArtifactStore, StoreView};

verus! {

/// A physical display as enumerated from the OS: its origin on the virtual
/// desktop and its size in pixels.
#[derive(Clone, Copy, Debug, PartialEq, Eq, Structural)]
pub struct DisplayInfo {
    pub x: i32,
    pub y: i32,
    pub width: u32,
    pub height: u32,
}

/// Whether `d` is the display whose origin was requested.
pub open spec fn origin_matches(d: DisplayInfo, x: i32, y: i32) -> bool {
    d.x == x && d.y == y
}

/// ScreenCapture: pick the display whose origin is exactly `(x, y)`. The
/// first match wins; no match means the capture request is dropped, which is
/// tolerated rather than an error.
pub fn select_display(displays: &Vec<DisplayInfo>, x: i32, y: i32) -> (r: Option<usize>)
    ensures
        match r {
            Some(i) => {
                &&& i < displays@.len()
                &&& origin_matches(displays@[i as int], x, y)
                &&& forall|j: int| 0 <= j < i ==> !origin_matches(displays@[j], x, y)
            },
            None => forall|j: int|
                0 <= j < displays@.len() ==> !origin_matches(displays@[j], x, y),
        },
{
    let mut i: usize = 0;
    while i < displays.len()
        invariant
            i <= displays@.len(),
            forall|j: int| 0 <= j < i ==> !origin_matches(displays@[j], x, y),
        decreases displays@.len() - i,
    {
        let d = displays[i];
        if d.x == x && d.y == y {
            return Some(i);
        }
        i = i + 1;
    }
    None
}

/// The store after a capture of `frame`: the full-frame artifact is exactly
/// the fresh encoding, and the selection is untouched.
pub open spec fn capture_step(s: StoreView, frame: ImageView) -> StoreView {
    StoreView { full: Some(png_bytes_of(frame)), selection: s.selection }
}

/// ScreenCapture: encode the captured frame losslessly and write it to the
/// fixed full-frame location, replacing whatever was there before. The frame
/// must be well formed, non-empty, and within the codec's size limit.
pub fn screenshot(store: &mut ArtifactStore, frame: &Image)
    requires
        frame@.wf(),
        frame@.width > 0,
        frame@.height > 0,
        frame@.width * frame@.height <= MAX_PIXEL_COUNT,
    ensures
        final(store)@ == capture_step(old(store)@, frame@),
{
    let bytes = encode_png(frame);
    store.full = Some(bytes);
    proof {
        assert(store@ =~= capture_step(old(store)@, frame@));
    }
}

/// Repeated captures overwrite rather than accumulate: capturing a second
/// frame leaves exactly the artifact of the second frame, as if the first
/// capture had never happened, and the full-frame artifact always exists
/// afterwards as the single live instance.
pub proof fn lemma_capture_overwrites(s: StoreView, first: ImageView, second: ImageView)
    ensures
        capture_step(capture_step(s, first), second) == capture_step(s, second),
        capture_step(s, second).full is Some,
{
    assert(capture_step(capture_step(s, first), second) =~= capture_step(s, second));
}

} // verus!
