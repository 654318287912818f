//! Native pixel buffers and their conversion to tightly packed RGBA.
//!
//! A native buffer stores its rows `stride` bytes apart, which may be more
//! than the `4 * width` bytes that the pixels of a row occupy, and may keep
//! the colour channels in blue-green-red-alpha order. The converter drops the
//! row padding and puts every pixel into red-green-blue-alpha order.

use vstd::prelude::*;
use crate::error::CaptureError;

verus! {

/// The order in which a pixel's four bytes hold its channels.
#[derive(Clone, Copy, Debug, PartialEq, Eq, Structural)]
pub enum ChannelOrder {
    /// Blue, green, red, alpha.
    Bgra,
    /// Red, green, blue, alpha.
    Rgba,
}

/// A two-dimensional grid of four-byte pixels as a platform hands it out.
#[derive(Clone, Debug, PartialEq, Eq)]
pub struct PixelBuffer {
    /// The raw bytes, row after row.
    pub data: Vec<u8>,
    /// Pixels per row.
    pub width: usize,
    /// Number of rows.
    pub height: usize,
    /// Bytes from the start of one row to the start of the next.
    pub stride: usize,
    /// Channel order of each pixel.
    pub order: ChannelOrder,
}

/// The mathematical model of a [`PixelBuffer`].
pub struct PixelGrid {
    pub data: Seq<u8>,
    pub width: nat,
    pub height: nat,
    pub stride: nat,
    pub order: ChannelOrder,
}

impl View for PixelBuffer {
    type V = PixelGrid;

    open spec fn view(&self) -> PixelGrid {
        PixelGrid {
            data: self.data@,
            width: self.width as nat,
            height: self.height as nat,
            stride: self.stride as nat,
            order: self.order,
        }
    }
}

/// The position, within a source pixel stored in `order`, of the byte that
/// becomes channel `channel` of the red-green-blue-alpha pixel.
pub open spec fn source_channel(order: ChannelOrder, channel: int) -> int {
    match order {
        ChannelOrder::Bgra => if channel == 0 {
            2
        } else if channel == 2 {
            0
        } else {
            channel
        },
        ChannelOrder::Rgba => channel,
    }
}

impl PixelGrid {
    /// A row is wide enough for its pixels, and the data holds every row.
    pub open spec fn holds_rows(self) -> bool {
        &&& self.stride >= 4 * self.width
        &&& self.data.len() >= self.stride * self.height
    }

    /// The number of bytes of the packed image.
    pub open spec fn packed_len(self) -> nat {
        self.width * self.height * 4
    }

    /// Where in the source data byte `k` of the packed image comes from:
    /// byte `k` is channel `k % 4` of pixel `k / 4`, which lies in row
    /// `(k / 4) / width` at column `(k / 4) % width`.
    pub open spec fn source_index(self, k: int) -> int {
        let pixel = k / 4;
        let row = pixel / (self.width as int);
        let column = pixel % (self.width as int);
        row * self.stride + 4 * column + source_channel(self.order, k % 4)
    }

    /// The image as tightly packed red-green-blue-alpha bytes.
    pub open spec fn packed_rgba(self) -> Seq<u8> {
        Seq::new(self.packed_len(), |k: int| self.data[self.source_index(k)])
    }

    /// The same grid read in another channel order.
    pub open spec fn with_order(self, order: ChannelOrder) -> PixelGrid {
        PixelGrid { order, ..self }
    }

    /// The tightly packed grid of the same size that holds `data` in
    /// channel order `order`.
    pub open spec fn repacked(self, data: Seq<u8>, order: ChannelOrder) -> PixelGrid {
        PixelGrid { data, width: self.width, height: self.height, stride: 4 * self.width, order }
    }
}

/// Byte `channel` of the pixel at (`column`, `row`) is byte
/// `4 * (row * width + column) + channel` of the packed image, and it comes
/// from byte `row * stride + 4 * column + source_channel(order, channel)` of
/// the source.
pub proof fn lemma_source_of_pixel(grid: PixelGrid, column: int, row: int, channel: int)
    requires
        0 <= column < grid.width,
        0 <= row,
        0 <= channel < 4,
    ensures
        grid.source_index(4 * (row * grid.width + column) + channel) == row * grid.stride + 4
            * column + source_channel(grid.order, channel),
{
    let width = grid.width as int;
    let pixel = row * width + column;
    let k = 4 * pixel + channel;
    assert(k / 4 == pixel && k % 4 == channel);
    vstd::arithmetic::div_mod::lemma_fundamental_div_mod_converse(pixel, width, row, column);
}

/// What the conversion does to one pixel: channel `channel` of the pixel at
/// (`column`, `row`) of the packed image is the byte of the same pixel of
/// the source that holds this channel. For a blue-green-red-alpha source
/// the first and the third byte change places, and the second byte and the
/// alpha byte stay where they are.
pub proof fn lemma_packed_pixel(grid: PixelGrid, column: int, row: int, channel: int)
    requires
        grid.holds_rows(),
        0 <= column < grid.width,
        0 <= row < grid.height,
        0 <= channel < 4,
    ensures
        0 <= 4 * (row * grid.width + column) + channel < grid.packed_rgba().len(),
        0 <= row * grid.stride + 4 * column + source_channel(grid.order, channel)
            < grid.data.len(),
        grid.packed_rgba()[4 * (row * grid.width + column) + channel] == grid.data[row
            * grid.stride + 4 * column + source_channel(grid.order, channel)],
{
    let width = grid.width as int;
    let height = grid.height as int;
    let stride = grid.stride as int;
    lemma_source_of_pixel(grid, column, row, channel);
    assert(row * width + width <= height * width) by (nonlinear_arith)
        requires
            0 <= row < height,
            width >= 0,
    ;
    assert(row * width >= 0) by (nonlinear_arith)
        requires
            0 <= row,
            width >= 0,
    ;
    assert(width * height * 4 == 4 * (height * width)) by (nonlinear_arith);
    assert(row * stride + stride <= height * stride) by (nonlinear_arith)
        requires
            0 <= row < height,
            stride >= 0,
    ;
    assert(row * stride >= 0) by (nonlinear_arith)
        requires
            0 <= row,
            stride >= 0,
    ;
    assert(stride * height == height * stride) by (nonlinear_arith);
}

/// A tightly packed red-green-blue-alpha grid is its own packed image.
pub proof fn lemma_packed_rgba_is_identity(grid: PixelGrid)
    requires
        grid.order == ChannelOrder::Rgba,
        grid.stride == 4 * grid.width,
        grid.data.len() == grid.packed_len(),
    ensures
        grid.packed_rgba() == grid.data,
{
    let width = grid.width as int;
    assert forall|k: int| 0 <= k < grid.packed_len() implies grid.source_index(k) == k by {
        let pixel = k / 4;
        assert(width > 0) by (nonlinear_arith)
            requires
                0 <= k < width * (grid.height as int) * 4,
                width >= 0,
        ;
        vstd::arithmetic::div_mod::lemma_fundamental_div_mod(pixel, width);
        assert((pixel / width) * (4 * width) == 4 * (width * (pixel / width)))
            by (nonlinear_arith);
    }
    assert(grid.packed_rgba() =~= grid.data);
}

/// Converting a blue-green-red-alpha grid and then swapping the first and
/// third channel of every pixel again gives back the pixels of the grid,
/// byte for byte and in the order in which the grid holds them.
///
/// The second swap is the conversion of the packed image read as
/// blue-green-red-alpha; the pixels of the grid as it holds them are its
/// packed image read without any swap.
pub proof fn lemma_swap_twice_restores(grid: PixelGrid)
    requires
        grid.holds_rows(),
    ensures
        grid.repacked(
            grid.with_order(ChannelOrder::Bgra).packed_rgba(),
            ChannelOrder::Bgra,
        ).packed_rgba() == grid.with_order(ChannelOrder::Rgba).packed_rgba(),
{
    let bgra = grid.with_order(ChannelOrder::Bgra);
    let plain = grid.with_order(ChannelOrder::Rgba);
    let once = bgra.packed_rgba();
    let again = grid.repacked(once, ChannelOrder::Bgra);
    let width = grid.width as int;
    assert(again.packed_len() == plain.packed_len());
    assert forall|k: int| 0 <= k < plain.packed_len() implies again.packed_rgba()[k]
        == plain.packed_rgba()[k] by {
        let pixel = k / 4;
        let channel = k % 4;
        let swapped = source_channel(ChannelOrder::Bgra, channel);
        assert(width > 0) by (nonlinear_arith)
            requires
                0 <= k < width * (grid.height as int) * 4,
                width >= 0,
        ;
        vstd::arithmetic::div_mod::lemma_fundamental_div_mod(pixel, width);
        assert((pixel / width) * (4 * width) == 4 * (width * (pixel / width)))
            by (nonlinear_arith);
        let k2 = 4 * pixel + swapped;
        assert(again.source_index(k) == k2);
        assert(k2 / 4 == pixel && k2 % 4 == swapped);
        assert(source_channel(ChannelOrder::Bgra, swapped) == channel);
        assert(bgra.source_index(k2) == plain.source_index(k));
        assert(0 <= k2 < bgra.packed_len());
    }
    assert(again.packed_rgba() =~= plain.packed_rgba());
}

/// Swapping the first and third channel of every pixel of a tightly packed
/// buffer twice reproduces the buffer bit for bit.
pub proof fn lemma_swap_twice_is_identity(grid: PixelGrid)
    requires
        grid.stride == 4 * grid.width,
        grid.data.len() == grid.packed_len(),
    ensures
        grid.repacked(
            grid.with_order(ChannelOrder::Bgra).packed_rgba(),
            ChannelOrder::Bgra,
        ).packed_rgba() == grid.data,
{
    assert(grid.stride * grid.height == grid.packed_len()) by (nonlinear_arith)
        requires
            grid.stride == 4 * grid.width,
            grid.packed_len() == grid.width * grid.height * 4,
    ;
    lemma_swap_twice_restores(grid);
    lemma_packed_rgba_is_identity(grid.with_order(ChannelOrder::Rgba));
}

/// Converts a native pixel buffer into tightly packed red-green-blue-alpha
/// bytes.
///
/// The conversion succeeds exactly when a row is at least `4 * width` bytes
/// long and the data holds `stride * height` bytes; otherwise it reports
/// [`CaptureError::BufferTooShort`] and produces nothing.
pub fn to_packed_rgba(buffer: &PixelBuffer) -> (result: Result<Vec<u8>, CaptureError>)
    ensures
        match result {
            Ok(pixels) => {
                &&& buffer@.holds_rows()
                &&& pixels@ == buffer@.packed_rgba()
                &&& pixels@.len() == buffer.width * buffer.height * 4
            },
            Err(reason) => reason == CaptureError::BufferTooShort && !buffer@.holds_rows(),
        },
{
    let width = buffer.width;
    let height = buffer.height;
    let stride = buffer.stride;
    let available = buffer.data.len();
    let row_bytes = match width.checked_mul(4) {
        Some(n) => n,
        None => {
            return Err(CaptureError::BufferTooShort);
        },
    };
    if stride < row_bytes {
        return Err(CaptureError::BufferTooShort);
    }
    assert(buffer@.stride * buffer@.height == stride * height);
    let needed = match stride.checked_mul(height) {
        Some(n) => n,
        None => {
            return Err(CaptureError::BufferTooShort);
        },
    };
    if available < needed {
        return Err(CaptureError::BufferTooShort);
    }
    let ghost grid = buffer@;
    let mut pixels: Vec<u8> = Vec::new();
    let mut row: usize = 0;
    while row < height
        invariant
            grid == buffer@,
            grid.holds_rows(),
            width == buffer.width,
            height == buffer.height,
            stride == buffer.stride,
            row <= height,
            stride * height <= buffer.data.len(),
            pixels@.len() == 4 * (row * width),
            forall|k: int| 0 <= k < pixels@.len() ==> pixels@[k] == grid.data[grid.source_index(k)],
        decreases height - row,
    {
        proof {
            assert(row * stride + stride <= height * stride) by (nonlinear_arith)
                requires
                    0 <= row < height,
                    stride >= 0,
            ;
            assert(stride * height == height * stride) by (nonlinear_arith);
        }
        let row_start = row * stride;
        let mut column: usize = 0;
        while column < width
            invariant
                grid == buffer@,
                grid.holds_rows(),
                width == buffer.width,
                stride == buffer.stride,
                row < height,
                column <= width,
                row_start == row * stride,
                row_start + stride <= buffer.data.len(),
                pixels@.len() == 4 * (row * width + column),
                forall|k: int|
                    0 <= k < pixels@.len() ==> pixels@[k] == grid.data[grid.source_index(k)],
            decreases width - column,
        {
            let start = row_start + 4 * column;
            let first = buffer.data[start];
            let second = buffer.data[start + 1];
            let third = buffer.data[start + 2];
            let fourth = buffer.data[start + 3];
            let ghost before = pixels@;
            proof {
                lemma_source_of_pixel(grid, column as int, row as int, 0);
                lemma_source_of_pixel(grid, column as int, row as int, 1);
                lemma_source_of_pixel(grid, column as int, row as int, 2);
                lemma_source_of_pixel(grid, column as int, row as int, 3);
            }
            match buffer.order {
                ChannelOrder::Bgra => {
                    pixels.push(third);
                    pixels.push(second);
                    pixels.push(first);
                    pixels.push(fourth);
                },
                ChannelOrder::Rgba => {
                    pixels.push(first);
                    pixels.push(second);
                    pixels.push(third);
                    pixels.push(fourth);
                },
            }
            assert forall|k: int| 0 <= k < pixels@.len() implies pixels@[k]
                == grid.data[grid.source_index(k)] by {
                if k < before.len() {
                    assert(pixels@[k] == before[k]);
                }
            }
            column = column + 1;
        }
        proof {
            assert(4 * (row * width + width) == 4 * ((row + 1) * width)) by (nonlinear_arith);
        }
        row = row + 1;
    }
    proof {
        assert(4 * (height * width) == width * height * 4) by (nonlinear_arith);
        assert(pixels@ =~= grid.packed_rgba());
    }
    Ok(pixels)
}

} // verus!
