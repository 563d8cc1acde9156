use vstd::prelude::*;
use image::imageops::FilterType;
use image::{DynamicImage, ImageBuffer, Rgba};
use crate::grid::{product, PanelConfig, PixelGrid, MAX_PIXELS};

verus! {

/// Relies on `image::DynamicImage::resize_exact` (through `imageops::resize`)
/// with the Lanczos3 filter: it allocates a fresh `nwidth × nheight` buffer.
#[verifier::external_body]
fn resize_exact(grid: &PixelGrid, nwidth: u32, nheight: u32) -> (r: Vec<u8>)
    requires
        grid.wf(),
        nwidth * nheight <= MAX_PIXELS,
    ensures
        r@.len() == 4 * (nwidth * nheight),
{
    let src = ImageBuffer::<Rgba<u8>, Vec<u8>>::from_raw(grid.width, grid.height, grid.data.clone());
    let img = DynamicImage::ImageRgba8(src.unwrap());
    img.resize_exact(nwidth, nheight, FilterType::Lanczos3).into_rgba8().into_raw()
}

/// Relies on `image::DynamicImage::resize_to_fill` with the Lanczos3 filter:
/// it resizes to cover the target and then crops, and the crop is clamped to
/// the target size, so the result is at most `nwidth × nheight`. When the
/// covering size fits in a `u32` on both sides (`fill_fits`), the resize is not
/// clamped, covers the target, and the crop is exactly `nwidth × nheight`.
#[verifier::external_body]
fn resize_fill(grid: &PixelGrid, nwidth: u32, nheight: u32) -> (r: PixelGrid)
    requires
        grid.wf(),
        grid.width > 0,
        grid.height > 0,
        nwidth > 0,
        nheight > 0,
        nwidth * nheight <= MAX_PIXELS,
    ensures
        r.width <= nwidth,
        r.height <= nheight,
        fill_fits(grid.width, grid.height, nwidth, nheight) ==> r.width == nwidth && r.height
            == nheight,
        r.data@.len() == 4 * (r.width * r.height),
{
    let src = ImageBuffer::<Rgba<u8>, Vec<u8>>::from_raw(grid.width, grid.height, grid.data.clone());
    let img = DynamicImage::ImageRgba8(src.unwrap());
    let out = img.resize_to_fill(nwidth, nheight, FilterType::Lanczos3).into_rgba8();
    PixelGrid { width: out.width(), height: out.height(), data: out.into_raw() }
}

/// Scaling a `width × height` image to cover `nwidth × nheight` keeps both
/// sides within `u32`.
pub open spec fn fill_fits(width: u32, height: u32, nwidth: u32, nheight: u32) -> bool {
    &&& height * nwidth <= u32::MAX * width
    &&& width * nheight <= u32::MAX * height
}

/// How an image is fitted to the panel.
#[derive(PartialEq, Eq, Structural, Clone, Copy, Debug)]
pub enum Fit {
    /// The sizes already agree: the image is used as it is.
    Keep,
    /// Resize to cover the panel, keeping the aspect ratio, and crop the
    /// overflow about the centre.
    Fill,
    /// Resize directly to the panel's size, distorting if need be.
    Stretch,
}

/// The two shapes have different width-to-height ratios.
pub open spec fn aspect_differs(width: u32, height: u32, pwidth: u32, pheight: u32) -> bool {
    width * pheight != pwidth * height
}

/// The policy for a `width × height` image: keep it when the sizes agree;
/// fill and crop when it has an aspect ratio (no zero side) that differs from
/// the panel's and cropping was asked for; stretch it otherwise.
pub open spec fn fit_spec(width: u32, height: u32, panel: PanelConfig) -> Fit {
    if width == panel.width && height == panel.height {
        Fit::Keep
    } else if width > 0 && height > 0 && aspect_differs(width, height, panel.width, panel.height)
        && panel.crop_on_aspect_mismatch {
        Fit::Fill
    } else {
        Fit::Stretch
    }
}

/// Chooses how a `width × height` image is fitted to the panel. Aspect ratios
/// are compared exactly, by cross-multiplication.
pub fn fit_policy(width: u32, height: u32, panel: &PanelConfig) -> (r: Fit)
    ensures
        r == fit_spec(width, height, *panel),
{
    if width == panel.width && height == panel.height {
        return Fit::Keep;
    }
    let a: u64 = product(width, panel.height);
    let b: u64 = product(panel.width, height);
    if width > 0 && height > 0 && a != b && panel.crop_on_aspect_mismatch {
        Fit::Fill
    } else {
        Fit::Stretch
    }
}

/// Fits an image to the panel's grid by the policy of `fit_policy`: the
/// result always has the panel's size, and an image that already has it is
/// returned unchanged. The resampled pixels are the image crate's Lanczos3
/// output, of which nothing more is stated.
pub fn normalize(image: PixelGrid, panel: &PanelConfig) -> (r: PixelGrid)
    requires
        image.wf(),
        panel.valid(),
    ensures
        r.wf(),
        r.width == panel.width,
        r.height == panel.height,
        fit_spec(image.width, image.height, *panel) == Fit::Keep ==> r.data@ == image.data@,
{
    match fit_policy(image.width, image.height, panel) {
        Fit::Keep => image,
        Fit::Fill => {
            let filled = resize_fill(&image, panel.width, panel.height);
            if filled.width == panel.width && filled.height == panel.height {
                return filled;
            }
            proof {
                assert(filled.width * filled.height <= panel.width * panel.height)
                    by (nonlinear_arith)
                    requires
                        filled.width <= panel.width,
                        filled.height <= panel.height,
                ;
            }
            let data = resize_exact(&filled, panel.width, panel.height);
            PixelGrid { width: panel.width, height: panel.height, data }
        },
        Fit::Stretch => {
            let data = resize_exact(&image, panel.width, panel.height);
            PixelGrid { width: panel.width, height: panel.height, data }
        },
    }
}

} // verus!
