//! Image buffer: one opaque RGB pixel in four bytes, stored column after column.

use vstd::prelude::*;
use crate::Dimension;

verus! {

/// The four bytes that a pixel of `color` holds: the red, green and blue bytes
/// of `0x00RRGGBB`, then an opaque alpha.
pub open spec fn pixel_bytes(color: u32) -> Seq<u8> {
    seq![
        ((color >> 16u32) & 0xFFu32) as u8,
        ((color >> 8u32) & 0xFFu32) as u8,
        (color & 0xFFu32) as u8,
        0xFFu8,
    ]
}

/// `bytes` with the pixel that starts at `at` set to `color`.
pub open spec fn paint(bytes: Seq<u8>, at: int, color: u32) -> Seq<u8> {
    Seq::new(
        bytes.len(),
        |k: int|
            if at <= k < at + 4 {
                pixel_bytes(color)[k - at]
            } else {
                bytes[k]
            },
    )
}

/// Byte `k` of a pixel of a freshly made image: zero, or the fill color.
pub open spec fn fill_byte(color: Option<u32>, k: int) -> u8 {
    match color {
        Some(c) => pixel_bytes(c)[k],
        None => 0u8,
    }
}

/// What an image holds: its size and its bytes.
pub struct ImageView {
    pub width: nat,
    pub height: nat,
    pub bytes: Seq<u8>,
}

impl ImageView {
    /// Four bytes per pixel, and every byte offset fits in a `u32`.
    pub open spec fn wf(&self) -> bool {
        &&& 4 * self.width * self.height <= u32::MAX
        &&& self.bytes.len() == 4 * self.width * self.height
    }

    /// Offset of the first byte of pixel `(px, py)`.
    pub open spec fn pixel_index(&self, px: int, py: int) -> int {
        4 * (px * self.height + py)
    }
}

/// An `x` by `y` image.
pub struct Image {
    pub x: u32,
    pub y: u32,
    data: Vec<u8>,
}

impl View for Image {
    type V = ImageView;

    closed spec fn view(&self) -> ImageView {
        ImageView { width: self.x as nat, height: self.y as nat, bytes: self.data@ }
    }
}

impl Image {
    /// A new `x` by `y` image, every pixel set to `color`, or every byte zero
    /// where there is no color.
    pub fn new(x: u32, y: u32, color: Option<u32>) -> (img: Self)
        requires
            4 * x * y <= u32::MAX,
        ensures
            img@.width == x,
            img@.height == y,
            img@.wf(),
            forall|k: int| 0 <= k < img@.bytes.len() ==> #[trigger] img@.bytes[k] == fill_byte(color, k % 4),
    {
        let len: u64 = 4 * (x as u64) * (y as u64);
        let mut ret = Image { x, y, data: Vec::with_capacity(len as usize) };
        ret.data.resize(len as usize, 0);
        assert forall|k: int| 0 <= k < ret@.bytes.len() implies #[trigger] ret@.bytes[k] == 0 by {
            assert(vstd::pervasive::cloned::<u8>(0u8, ret.data@[k]));
        }
        if let Some(col) = color {
            let mut a: u32 = 0;
            while a < x
                invariant
                    ret@.width == x,
                    ret@.height == y,
                    ret@.wf(),
                    a <= x,
                    forall|k: int|
                        0 <= k < ret@.bytes.len() ==> #[trigger] ret@.bytes[k] == if k < 4 * (a * y) {
                            pixel_bytes(col)[k % 4]
                        } else {
                            0u8
                        },
                decreases x - a,
            {
                let mut b: u32 = 0;
                while b < y
                    invariant
                        ret@.width == x,
                        ret@.height == y,
                        ret@.wf(),
                        a < x,
                        b <= y,
                        forall|k: int|
                            0 <= k < ret@.bytes.len() ==> #[trigger] ret@.bytes[k] == if k < 4 * (a
                                * y + b) {
                                pixel_bytes(col)[k % 4]
                            } else {
                                0u8
                            },
                    decreases y - b,
                {
                    let ghost before = ret@.bytes;
                    let ghost m: int = a * y + b;
                    ret.draw_pixel(a, b, col);
                    assert(ret@.bytes == paint(before, 4 * m, col));
                    assert forall|k: int| 0 <= k < ret@.bytes.len() implies #[trigger] ret@.bytes[k] == if k < 4 * (a * y + b + 1) {
                        pixel_bytes(col)[k % 4]
                    } else {
                        0u8
                    } by {
                        if 4 * m <= k < 4 * m + 4 {
                            assert(k % 4 == k - 4 * m);
                        }
                    }
                    b = b + 1;
                }
                assert(a * y + y == (a + 1) * y) by (nonlinear_arith);
                a = a + 1;
            }
            assert(4 * (a * y) == 4 * a * y) by (nonlinear_arith);
        }
        ret
    }

    /// Sets pixel `(x, y)` to the RGB bytes of `color` (`0x00RRGGBB`), opaque.
    pub fn draw_pixel(&mut self, x: u32, y: u32, color: u32)
        requires
            old(self)@.wf(),
            x < old(self)@.width,
            y < old(self)@.height,
        ensures
            final(self)@.width == old(self)@.width,
            final(self)@.height == old(self)@.height,
            final(self)@.wf(),
            final(self)@.bytes == paint(old(self)@.bytes, old(self)@.pixel_index(x as int, y as int), color),
    {
        proof {
            let (w, h) = (self.x as int, self.y as int);
            assert(x * 4 * h + 4 * y + 4 <= 4 * w * h && x * 4 <= x * 4 * h) by (nonlinear_arith)
                requires
                    x < w,
                    y < h,
            ;
            assert((color >> 16u32) & 0xFFu32 <= 0xFF && (color >> 8u32) & 0xFFu32 <= 0xFF && color
                & 0xFFu32 <= 0xFF) by (bit_vector);
        }
        let index: usize = (x * 4 * self.y + 4 * y) as usize;
        assert(index == self@.pixel_index(x as int, y as int)) by (nonlinear_arith)
            requires index == x * 4 * self.y + 4 * y;
        self.data.set(index, ((color >> 16) & 0xFF) as u8);
        self.data.set(index + 1, ((color >> 8) & 0xFF) as u8);
        self.data.set(index + 2, (color & 0xFF) as u8);
        self.data.set(index + 3, 0xFF);
        assert(self.data@ =~= paint(old(self).data@, index as int, color));
    }

    /// Width and height of the image.
    pub fn get_dimension(&self) -> (d: Dimension)
        ensures
            d.x == self@.width,
            d.y == self@.height,
    {
        Dimension { x: self.x, y: self.y }
    }

    /// The image's bytes, pixel after pixel, column after column.
    pub fn get_data(&self) -> (s: &[u8])
        ensures
            s@ == self@.bytes,
    {
        self.data.as_slice()
    }
}

} // verus!
