use vstd::prelude::*;
use vstd::arithmetic::div_mod::lemma_fundamental_div_mod_converse;

verus! {

/// Mathematical model of a raster image: its dimensions in pixels and the raw
/// 8-bit RGBA samples, row-major, four samples per pixel.
#[verifier::ext_equal]
pub struct ImageView {
    pub width: u32,
    pub height: u32,
    pub pixels: Seq<u8>,
}

impl ImageView {
    /// Every pixel of the grid is present: four samples per pixel, row-major.
    pub open spec fn wf(self) -> bool {
        self.pixels.len() == 4 * self.width * self.height
    }

    /// Sample `k` of the pixel in column `x`, row `y`.
    pub open spec fn sample(self, x: int, y: int, k: int) -> u8 {
        self.pixels[4 * (y * self.width + x) + k]
    }
}

/// A decoded raster image: `width * height` pixels of four 8-bit RGBA samples
/// each, row-major.
#[derive(Clone, Debug, PartialEq, Eq)]
pub struct Image {
    pub width: u32,
    pub height: u32,
    pub pixels: Vec<u8>,
}

impl View for Image {
    type V = ImageView;

    open spec fn view(&self) -> ImageView {
        ImageView { width: self.width, height: self.height, pixels: self.pixels@ }
    }
}

/// Whether the rectangle `[left, left+width) x [top, top+height)` lies within
/// the bounds of `m`.
pub open spec fn rect_in_bounds(m: ImageView, left: u32, top: u32, width: u32, height: u32) -> bool {
    left + width <= m.width && top + height <= m.height
}

/// The sub-image of `m` with top-left corner `(left, top)` and the given
/// dimensions: pixel `(x, y)` of the result is pixel `(left + x, top + y)`
/// of `m`.
pub open spec fn crop_view(m: ImageView, left: u32, top: u32, width: u32, height: u32) -> ImageView {
    ImageView {
        width,
        height,
        pixels: Seq::new(
            (4 * width * height) as nat,
            |i: int| m.sample(
                left + (i / 4) % (width as int),
                top + (i / 4) / (width as int),
                i % 4,
            ),
        ),
    }
}

/// A sample index stays inside a well-formed image's buffer.
pub proof fn lemma_sample_in_bounds(m: ImageView, x: int, y: int, k: int)
    requires
        m.wf(),
        0 <= x < m.width,
        0 <= y < m.height,
        0 <= k < 4,
    ensures
        0 <= 4 * (y * m.width + x) + k < m.pixels.len(),
{
    let w = m.width as int;
    let h = m.height as int;
    assert(0 <= 4 * (y * w + x) + k && 4 * (y * w + x) + k < 4 * w * h) by (nonlinear_arith)
        requires
            0 <= x < w,
            0 <= y < h,
            0 <= k < 4,
    ;
}

/// The flat index `4 * (row * width + col) + k` of the cropped image holds
/// sample `k` of the source pixel `(left + col, top + row)`.
pub proof fn lemma_crop_sample(
    m: ImageView,
    left: u32,
    top: u32,
    width: u32,
    height: u32,
    row: int,
    col: int,
    k: int,
)
    requires
        0 <= row < height,
        0 <= col < width,
        0 <= k < 4,
    ensures
        0 <= 4 * (row * width + col) + k < 4 * width * height,
        crop_view(m, left, top, width, height).pixels[4 * (row * width + col) + k]
            == m.sample(left + col, top + row, k),
{
    let w = width as int;
    let h = height as int;
    let p = row * w + col;
    let i = 4 * p + k;
    assert(0 <= p && 0 <= i && i < 4 * w * h) by (nonlinear_arith)
        requires
            0 <= row < h,
            0 <= col < w,
            0 <= k < 4,
            p == row * w + col,
            i == 4 * p + k,
    ;
    lemma_fundamental_div_mod_converse(i, 4, p, k);
    lemma_fundamental_div_mod_converse(p, w, row, col);
}

/// RegionCropper's core: extract the sub-rectangle `[left, left+width) x
/// [top, top+height)` of `img`, sample for sample.
pub fn crop_image(img: &Image, left: u32, top: u32, width: u32, height: u32) -> (r: Image)
    requires
        img@.wf(),
        left + width <= img@.width,
        top + height <= img@.height,
    ensures
        r@ == crop_view(img@, left, top, width, height),
        r@.wf(),
{
    let ghost target = crop_view(img@, left, top, width, height);
    let mut out: Vec<u8> = Vec::new();
    let mut row: u32 = 0;
    while row < height
        invariant
            img@.wf(),
            left + width <= img@.width,
            top + height <= img@.height,
            target == crop_view(img@, left, top, width, height),
            row <= height,
            out@.len() == 4 * (row as int) * (width as int),
            forall|i: int| 0 <= i < out@.len() ==> out@[i] == target.pixels[i],
        decreases height - row,
    {
        let mut col: u32 = 0;
        proof {
            assert(4 * (row as int) * (width as int) == 4 * ((row as int) * (width as int)))
                by (nonlinear_arith);
        }
        while col < width
            invariant
                img@.wf(),
                left + width <= img@.width,
                top + height <= img@.height,
                target == crop_view(img@, left, top, width, height),
                row < height,
                col <= width,
                out@.len() == 4 * ((row as int) * (width as int) + col as int),
                forall|i: int| 0 <= i < out@.len() ==> out@[i] == target.pixels[i],
            decreases width - col,
        {
            let sx: usize = (left + col) as usize;
            let sy: usize = (top + row) as usize;
            let pix_len: usize = img.pixels.len();
            proof {
                lemma_sample_in_bounds(img@, sx as int, sy as int, 0);
                lemma_sample_in_bounds(img@, sx as int, sy as int, 3);
                lemma_crop_sample(img@, left, top, width, height, row as int, col as int, 0);
                lemma_crop_sample(img@, left, top, width, height, row as int, col as int, 1);
                lemma_crop_sample(img@, left, top, width, height, row as int, col as int, 2);
                lemma_crop_sample(img@, left, top, width, height, row as int, col as int, 3);
                assert(4 * ((sy as int) * (img@.width as int) + sx as int) + 3
                    < pix_len as int);
            }
            let base: usize = 4 * (sy * (img.width as usize) + sx);
            out.push(img.pixels[base]);
            out.push(img.pixels[base + 1]);
            out.push(img.pixels[base + 2]);
            out.push(img.pixels[base + 3]);
            col = col + 1;
        }
        proof {
            assert(4 * ((row as int) * (width as int) + width as int)
                == 4 * ((row as int + 1) * (width as int))) by (nonlinear_arith);
            assert(4 * ((row as int + 1) * (width as int))
                == 4 * (row as int + 1) * (width as int)) by (nonlinear_arith);
        }
        row = row + 1;
    }
    proof {
        assert(4 * (height as int) * (width as int) == 4 * (width as int) * (height as int))
            by (nonlinear_arith);
        assert(out@ =~= target.pixels);
    }
    let r = Image { width, height, pixels: out };
    proof {
        assert(r@ =~= target);
    }
    r
}

} // verus!
