//! Render parameters and the raster scan over pixels.
//!
//! The renderer fires `samples_per_pixel` jittered rays per pixel and
//! averages them, so a sample count of zero would divide by zero; settings
//! construction rejects it, together with empty image dimensions. Pixels are
//! enumerated in canonical raster order — rows from the top of the image to
//! the bottom, columns left to right — and rows are numbered from the bottom
//! of the image, so the top row has the highest row index.

use vstd::prelude::*;

verus! {

/// Parameters of one render: image size in pixels, samples per pixel and
/// the bounce depth budget of the path integrator.
#[derive(Clone, Copy, PartialEq, Eq, Structural, Debug)]
pub struct RenderSettings {
    pub width: u32,
    pub height: u32,
    pub samples_per_pixel: u32,
    pub max_depth: u32,
}

impl RenderSettings {
    /// The image is not empty, the pixel count is addressable, and at least
    /// one sample is taken per pixel (the sample average divides by the
    /// sample count).
    pub open spec fn wf(self) -> bool {
        &&& self.width >= 1
        &&& self.height >= 1
        &&& self.width * self.height <= usize::MAX
        &&& self.samples_per_pixel >= 1
    }

    /// Validate render parameters; `None` exactly when the image would be
    /// empty, the pixel count would not be addressable, or the sample count
    /// is zero.
    pub fn new(width: u32, height: u32, samples_per_pixel: u32, max_depth: u32) -> (r: Option<
        RenderSettings,
    >)
        ensures
            r is Some <==> (width >= 1 && height >= 1 && width * height <= usize::MAX
                && samples_per_pixel >= 1),
            r matches Some(s) ==> s == (RenderSettings { width, height, samples_per_pixel, max_depth }),
            r matches Some(s) ==> s.wf(),
    {
        proof {
            assert((width as int) * (height as int) <= 0xffff_ffff * 0xffff_ffff)
                by (nonlinear_arith)
                requires
                    width <= 0xffff_ffffu32,
                    height <= 0xffff_ffffu32,
            ;
        }
        if width >= 1 && height >= 1 && samples_per_pixel >= 1 && (width as u64) * (height as u64)
            <= (usize::MAX as u64) {
            Some(RenderSettings { width, height, samples_per_pixel, max_depth })
        } else {
            None
        }
    }
}

/// The coordinate of the `k`-th pixel of the raster scan: row index counted
/// from the bottom of the image, column index from the left.
pub open spec fn spec_coordinate(width: u32, height: u32, k: int) -> (u32, u32) {
    (((height - 1) - k / (width as int)) as u32, (k % (width as int)) as u32)
}

/// All pixel coordinates `(row, column)` of a `width` by `height` image in
/// raster order: the top row (row index `height - 1`) first, each row left
/// to right.
pub fn pixel_coordinates(width: u32, height: u32) -> (r: Vec<(u32, u32)>)
    requires
        width >= 1,
        height >= 1,
        width * height <= usize::MAX,
    ensures
        r@.len() == width * height,
        forall|k: int| 0 <= k < r@.len() ==> r@[k] == spec_coordinate(width, height, k),
{
    let total: usize = (width as usize) * (height as usize);
    let mut coords: Vec<(u32, u32)> = Vec::new();
    let mut k: usize = 0;
    while k < total
        invariant
            total == width * height,
            width >= 1,
            height >= 1,
            k <= total,
            coords@.len() == k,
            forall|j: int| 0 <= j < k ==> coords@[j] == spec_coordinate(width, height, j),
        decreases total - k,
    {
        proof {
            assert((k as int) / (width as int) < height as int) by (nonlinear_arith)
                requires
                    (k as int) < (width as int) * (height as int),
                    width as int >= 1,
            ;
        }
        let row_from_top: usize = k / (width as usize);
        let col: usize = k % (width as usize);
        let row: u32 = (height - 1) - (row_from_top as u32);
        coords.push((row, col as u32));
        k = k + 1;
    }
    coords
}

} // verus!
