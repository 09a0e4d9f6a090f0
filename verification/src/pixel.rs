use vstd::prelude::*;

verus! {

/// A decoded raster image: 8-bit RGBA samples in row-major order, four bytes
/// per pixel, together with the image's width and height in pixels.
pub struct PixelBuffer {
    pub width: u32,
    pub height: u32,
    pub data: Vec<u8>,
}

impl PixelBuffer {
    /// The buffer holds exactly four bytes for every pixel of the image.
    pub open spec fn wf(self) -> bool {
        self.data@.len() == 4 * (self.width as int) * (self.height as int)
    }

    /// Number of pixels the buffer holds.
    pub open spec fn pixel_count(self) -> int {
        self.data@.len() as int / 4
    }

    /// Builds a buffer from its dimensions and raw bytes, rejecting byte
    /// sequences whose length does not match the dimensions.
    pub fn new(width: u32, height: u32, data: Vec<u8>) -> (r: Option<PixelBuffer>)
        ensures
            r matches Some(pb) ==> pb.width == width && pb.height == height
                && pb.data@ == data@ && pb.wf(),
            r is None <==> data@.len() != 4 * (width as int) * (height as int),
    {
        proof {
            assert(4 * (width as u128) * (height as u128) < u128::MAX) by (nonlinear_arith)
                requires
                    width <= u32::MAX,
                    height <= u32::MAX,
            ;
        }
        let expected: u128 = 4 * (width as u128) * (height as u128);
        if data.len() as u128 == expected {
            Some(PixelBuffer { width, height, data })
        } else {
            None
        }
    }
}

} // verus!
