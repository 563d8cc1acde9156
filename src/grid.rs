use vstd::prelude::*;

verus! {

/// The largest number of pixels a grid may hold: run indices are `u32`.
pub const MAX_PIXELS: u64 = 4294967295;

/// Errors raised while validating inputs to the pipeline.
#[derive(PartialEq, Eq, Structural, Clone, Copy, Debug)]
pub enum CoreError {
    /// A zero-pixel grid, a zero panel dimension, or pixel data whose length
    /// does not match the stated dimensions.
    InvalidInput,
    /// No device address was supplied.
    MissingAddress,
    /// The panel width or height was not supplied.
    MissingDimensions,
}

/// A colour without alpha.
#[derive(PartialEq, Eq, Structural, Clone, Copy, Debug)]
pub struct Rgb {
    pub r: u8,
    pub g: u8,
    pub b: u8,
}

/// An image as a row-major sequence of RGBA samples, four bytes per pixel.
#[derive(Clone, Debug)]
pub struct PixelGrid {
    pub width: u32,
    pub height: u32,
    pub data: Vec<u8>,
}

/// The LED panel's grid and how images of another shape are fitted to it.
#[derive(PartialEq, Eq, Structural, Clone, Copy, Debug)]
pub struct PanelConfig {
    pub width: u32,
    pub height: u32,
    pub crop_on_aspect_mismatch: bool,
}

/// The colour (RGB channels) of pixel `i` in a flat RGBA byte sequence.
pub open spec fn color_at(data: Seq<u8>, i: int) -> Rgb {
    Rgb { r: data[4 * i], g: data[4 * i + 1], b: data[4 * i + 2] }
}

/// `a * b`, which always fits in a `u64`.
pub(crate) fn product(a: u32, b: u32) -> (r: u64)
    ensures
        r == a * b,
{
    assert(0 <= a * b <= u32::MAX * u32::MAX) by (nonlinear_arith)
        requires a <= u32::MAX, b <= u32::MAX;
    a as u64 * b as u64
}

/// The RGB channels of the first `n` pixels of a flat RGBA byte sequence.
pub open spec fn colors_of(data: Seq<u8>, n: nat) -> Seq<Rgb> {
    Seq::new(n, |i: int| color_at(data, i))
}

impl PixelGrid {
    pub open spec fn pixel_count(&self) -> nat {
        (self.width * self.height) as nat
    }

    /// Four bytes for each of `width * height` pixels, and few enough pixels
    /// for every index to fit in a `u32`.
    pub open spec fn wf(&self) -> bool {
        &&& self.width * self.height <= MAX_PIXELS
        &&& self.data@.len() == 4 * (self.width * self.height)
    }

    /// The RGB channels of every pixel, in row-major order.
    pub open spec fn colors(&self) -> Seq<Rgb> {
        colors_of(self.data@, self.pixel_count())
    }

    /// Builds a grid from raw RGBA bytes; fails unless there are exactly four
    /// bytes per pixel and the pixel count fits in a `u32`.
    pub fn new(width: u32, height: u32, data: Vec<u8>) -> (r: Result<PixelGrid, CoreError>)
        ensures
            match r {
                Ok(g) => g.width == width && g.height == height && g.data@ == data@ && g.wf(),
                Err(e) => e == CoreError::InvalidInput && !(PixelGrid {
                    width,
                    height,
                    data,
                }).wf(),
            },
    {
        let n: u64 = product(width, height);
        if n > MAX_PIXELS || data.len() as u64 != 4 * n {
            return Err(CoreError::InvalidInput);
        }
        Ok(PixelGrid { width, height, data })
    }

    /// The number of pixels, `width * height`.
    pub fn len(&self) -> (r: u32)
        requires
            self.wf(),
        ensures
            r == self.pixel_count(),
    {
        self.width * self.height
    }

    /// The RGB channels of pixel `i`, dropping alpha.
    pub fn rgb(&self, i: u32) -> (r: Rgb)
        requires
            self.wf(),
            i < self.pixel_count(),
        ensures
            r == self.colors()[i as int],
    {
        let len: usize = self.data.len();
        assert(4 * i + 2 < len);
        let p: usize = 4 * (i as usize);
        Rgb { r: self.data[p], g: self.data[p + 1], b: self.data[p + 2] }
    }
}

impl PanelConfig {
    /// Both dimensions nonzero, and the pixel count fits in a `u32`.
    pub open spec fn valid(&self) -> bool {
        &&& self.width > 0
        &&& self.height > 0
        &&& self.width * self.height <= MAX_PIXELS
    }

    /// Builds a panel configuration; a zero dimension, or more pixels than a
    /// `u32` can index, is rejected.
    pub fn new(width: u32, height: u32, crop_on_aspect_mismatch: bool) -> (r: Result<
        PanelConfig,
        CoreError,
    >)
        ensures
            match r {
                Ok(p) => p.width == width && p.height == height && p.crop_on_aspect_mismatch
                    == crop_on_aspect_mismatch && p.valid(),
                Err(e) => e == CoreError::InvalidInput && !(PanelConfig {
                    width,
                    height,
                    crop_on_aspect_mismatch,
                }).valid(),
            },
    {
        let n: u64 = product(width, height);
        if width == 0 || height == 0 || n > MAX_PIXELS {
            return Err(CoreError::InvalidInput);
        }
        Ok(PanelConfig { width, height, crop_on_aspect_mismatch })
    }
}

} // verus!
