use vstd::prelude::*;
use crate::codec::{decode_png, encode_png, png_bytes_of, png_image_of, MAX_PIXEL_COUNT};
use crate::raster::{crop_image, crop_view, rect_in_bounds, Image, ImageView};
use crate::store::{ArtifactStore, StoreView};

verus! {

/// Whether a crop request is one the cropper acts on: a non-degenerate
/// rectangle that lies within the bounds of the decoded full frame and stays
/// under the codec's size limit.
pub open spec fn crop_applies(m: ImageView, left: u32, top: u32, width: u32, height: u32) -> bool {
    width > 0 && height > 0 && rect_in_bounds(m, left, top, width, height)
        && width * height <= MAX_PIXEL_COUNT
}

/// The store after a crop request: unchanged unless the full-frame artifact
/// exists, decodes, and contains the requested rectangle; in that case the
/// selection becomes the encoding of the requested sub-image and the full
/// frame itself is never touched.
pub open spec fn crop_step(s: StoreView, left: u32, top: u32, width: u32, height: u32) -> StoreView {
    match s.full {
        Some(b) => match png_image_of(b) {
            Some(m) => if crop_applies(m, left, top, width, height) {
                StoreView {
                    full: s.full,
                    selection: Some(png_bytes_of(crop_view(m, left, top, width, height))),
                }
            } else {
                s
            },
            None => s,
        },
        None => s,
    }
}

/// RegionCropper: load the full-frame artifact, cut out the requested
/// rectangle, and write the selection artifact, overwriting any prior one.
/// Without a capture the call is a complete no-op, and an artifact that does
/// not decode, or a rectangle that is empty or out of bounds, also leaves the
/// store as it was. When the cropper does act, reloading the selection yields
/// an image of exactly the requested width and height, with the samples of
/// the requested rectangle.
pub fn cut_image(store: &mut ArtifactStore, left: u32, top: u32, width: u32, height: u32)
    ensures
        final(store)@ == crop_step(old(store)@, left, top, width, height),
        final(store)@.full == old(store)@.full,
        old(store)@.full is None ==> final(store)@ == old(store)@,
        (match old(store)@.full {
            Some(b) => match png_image_of(b) {
                Some(m) => crop_applies(m, left, top, width, height) ==> {
                    &&& final(store)@.selection == Some(
                        png_bytes_of(crop_view(m, left, top, width, height)),
                    )
                    &&& png_image_of(png_bytes_of(crop_view(m, left, top, width, height)))
                        == Some(crop_view(m, left, top, width, height))
                    &&& crop_view(m, left, top, width, height).width == width
                    &&& crop_view(m, left, top, width, height).height == height
                },
                None => true,
            },
            None => true,
        }),
{
    let decoded = match &store.full {
        None => {
            proof {
                assert(store@ =~= crop_step(store@, left, top, width, height));
            }
            return ;
        },
        Some(bytes) => decode_png(bytes),
    };
    let frame = match decoded {
        None => {
            proof {
                assert(store@ =~= crop_step(store@, left, top, width, height));
            }
            return ;
        },
        Some(frame) => frame,
    };
    proof {
        assert((width as int) * (height as int) <= 0xffff_ffff * 0xffff_ffff) by (nonlinear_arith)
            requires
                width as int <= 0xffff_ffff,
                height as int <= 0xffff_ffff,
                0 <= width as int,
                0 <= height as int,
        ;
    }
    if width == 0 || height == 0 || width > frame.width || left > frame.width - width
        || height > frame.height || top > frame.height - height
        || (width as u64) * (height as u64) > MAX_PIXEL_COUNT {
        proof {
            assert(!crop_applies(frame@, left, top, width, height));
            assert(store@ =~= crop_step(store@, left, top, width, height));
        }
        return ;
    }
    let cropped = crop_image(&frame, left, top, width, height);
    let bytes = encode_png(&cropped);
    store.selection = Some(bytes);
    proof {
        assert(store@ =~= crop_step(old(store)@, left, top, width, height));
    }
}

/// Decode the full-frame artifact, if it exists and parses as an image.
pub fn reload_full(store: &ArtifactStore) -> (r: Option<Image>)
    ensures
        match store@.full {
            Some(b) => match r {
                Some(img) => png_image_of(b) == Some(img@) && img@.wf(),
                None => png_image_of(b) is None,
            },
            None => r is None,
        },
{
    match &store.full {
        Some(bytes) => decode_png(bytes),
        None => None,
    }
}

/// Decode the selection artifact, if it exists and parses as an image.
pub fn reload_selection(store: &ArtifactStore) -> (r: Option<Image>)
    ensures
        match store@.selection {
            Some(b) => match r {
                Some(img) => png_image_of(b) == Some(img@) && img@.wf(),
                None => png_image_of(b) is None,
            },
            None => r is None,
        },
{
    match &store.selection {
        Some(bytes) => decode_png(bytes),
        None => None,
    }
}

} // verus!
