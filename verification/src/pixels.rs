//! The captured frame as a row-major `(height, width, 4)` array of
//! unsigned 8-bit samples, four bytes per pixel.

use vstd::prelude::*;

use crate::errors::WdError;

verus! {

/// A row-major pixel array: sample `(y, x, c)` lives at byte
/// `(y * width + x) * 4 + c`.
pub struct PixelArray {
    data: Vec<u8>,
    width: u32,
    height: u32,
}

impl PixelArray {
    /// The raw bytes, row-major, four per pixel.
    pub closed spec fn view(&self) -> Seq<u8> {
        self.data@
    }

    pub closed spec fn spec_width(&self) -> u32 {
        self.width
    }

    pub closed spec fn spec_height(&self) -> u32 {
        self.height
    }

    /// The byte count always matches the shape (and so fits the
    /// machine).
    pub closed spec fn wf(&self) -> bool {
        &&& self.data@.len() == 4 * self.height * self.width
        &&& self.data@.len() <= usize::MAX
    }

    /// Shape a flat byte buffer, as read back from the shared-memory
    /// file, into a pixel array; a byte count that does not match the
    /// negotiated geometry is a transport-level failure.
    pub fn from_vec(data: Vec<u8>, width: u32, height: u32) -> (r: Result<PixelArray, WdError>)
        ensures
            match r {
                Ok(p) => {
                    &&& p.wf()
                    &&& p@ == data@
                    &&& p.spec_width() == width
                    &&& p.spec_height() == height
                    &&& data@.len() == 4 * height * width
                },
                Err(e) => e == WdError::Protocol && data@.len() != 4 * height * width,
            },
    {
        proof {
            assert(height * width <= 4 * height * width && 4 * (height * width) == 4 * height
                * width) by (nonlinear_arith);
        }
        let n = data.len();
        proof {
            assert(height * width < 0x10000000000000000) by (nonlinear_arith)
                requires
                    height < 0x100000000 && width < 0x100000000,
            ;
        }
        if height as u64 * width as u64 > usize::MAX as u64 / 4 {
            // the buffer cannot hold that many bytes
            proof {
                assert(4 * (height * width) > usize::MAX) by (nonlinear_arith)
                    requires
                        height * width > usize::MAX / 4,
                ;
            }
            return Err(WdError::Protocol);
        }
        let expected: usize = 4 * (height as usize * width as usize);
        if n == expected {
            Ok(PixelArray { data, width, height })
        } else {
            Err(WdError::Protocol)
        }
    }

    /// The shape `(height, width, 4)`.
    pub fn shape(&self) -> (r: (u32, u32, u32))
        ensures
            r == (self.spec_height(), self.spec_width(), 4u32),
    {
        (self.height, self.width, 4)
    }

    /// The total byte count, `height * width * 4`.
    pub fn byte_len(&self) -> (r: usize)
        requires
            self.wf(),
        ensures
            r == self@.len(),
            r == 4 * self.spec_height() * self.spec_width(),
    {
        self.data.len()
    }

    /// Sample `c` of the pixel at row `y`, column `x`.
    pub fn get(&self, y: u32, x: u32, c: u32) -> (r: u8)
        requires
            self.wf(),
            y < self.spec_height(),
            x < self.spec_width(),
            c < 4,
        ensures
            r == self@[(y * self.spec_width() + x) * 4 + c],
    {
        proof {
            let w = self.spec_width() as int;
            let h = self.spec_height() as int;
            assert(y * w <= h * w && y * w + x < h * w && (y * w + x) * 4 + c < 4 * (h * w) && 4
                * (h * w) == 4 * h * w) by (nonlinear_arith)
                requires
                    0 <= y < h && 0 <= x < w && 0 <= c < 4 && 0 < w && 0 < h,
            ;
        }
        let idx: usize = (y as usize * self.width as usize + x as usize) * 4 + c as usize;
        self.data[idx]
    }

    /// The raw bytes, handed back for the caller to reshape or encode.
    pub fn into_vec(self) -> (r: Vec<u8>)
        ensures
            r@ == self@,
    {
        self.data
    }
}

} // verus!
