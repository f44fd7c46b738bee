//! Reading a rendered image back.

use vstd::prelude::*;

use crate::pipeline::gpu::TextureFormat;

verus! {

/// What is shown in place of the lit scene.
#[derive(Clone, Copy, Debug, PartialEq, Eq, Structural)]
pub enum DebugOverlay {
    /// The lit scene itself.
    Off,
    /// Structure without foliage.
    StructureOnly,
    /// Foliage without structure.
    CanopyOnly,
    /// How far the wind displaces foliage.
    WindMagnitude,
    /// Clusters by their density tier.
    LodHeatmap,
}

impl Default for DebugOverlay {
    fn default() -> (overlay: DebugOverlay)
        ensures
            overlay == DebugOverlay::Off,
    {
        DebugOverlay::Off
    }
}

/// The alignment of rows in a copy between textures and buffers, the constant
/// `wgpu::COPY_BYTES_PER_ROW_ALIGNMENT`. Claimed: it is 256.
#[verifier::external_body]
fn row_alignment() -> (n: u32)
    ensures
        n == 256,
{
    wgpu::COPY_BYTES_PER_ROW_ALIGNMENT
}

/// An image, four bytes for each pixel, row by row without gaps.
#[derive(Debug)]
pub struct CapturedFrame {
    pub width: u32,
    pub height: u32,
    pub rgba: Vec<u8>,
}

/// How an image lies in the buffer it is copied to.
#[derive(Clone, Copy, Debug, PartialEq, Eq, Structural)]
pub struct ReadbackPlan {
    pub width: u32,
    pub height: u32,
    /// The bytes of a row of pixels.
    pub unpadded_bytes_per_row: u32,
    /// The bytes from one row to the next.
    pub padded_bytes_per_row: u32,
    pub buffer_size: u64,
}

/// The least multiple of 256 that is at least `n`.
pub open spec fn row_stride(n: int) -> int {
    (n + 255) / 256 * 256
}

/// All sizes are within 32 bits.
pub open spec fn can_capture(width: u32, height: u32) -> bool {
    &&& row_stride(width * 4) <= u32::MAX
    &&& width * 4 * height <= u32::MAX
}

impl ReadbackPlan {
    pub open spec fn well_formed(self) -> bool {
        &&& can_capture(self.width, self.height)
        &&& self.unpadded_bytes_per_row == self.width * 4
        &&& self.padded_bytes_per_row == row_stride(self.width * 4)
        &&& self.buffer_size == self.padded_bytes_per_row * self.height
    }

    /// Plans the copy of an image; `None` where a size does not fit.
    pub fn new(width: u32, height: u32) -> (plan: Option<ReadbackPlan>)
        ensures
            plan is Some <==> can_capture(width, height),
            plan matches Some(p) ==> p.well_formed() && p.width == width && p.height == height,
    {
        let unpadded: u64 = width as u64 * 4;
        let align: u64 = row_alignment() as u64;
        let padded: u64 = (unpadded + (align - 1)) / align * align;
        if padded > u32::MAX as u64 {
            return None;
        }
        assert(0 <= unpadded * height <= 0x3_FFFF_FFFC * 0xFFFF_FFFF) by (nonlinear_arith)
            requires
                0 <= unpadded <= 0x3_FFFF_FFFC,
                0 <= height <= 0xFFFF_FFFF,
        ;
        assert(unpadded * height <= 0xFFFF_FFFF * 0xFFFF_FFFF) by (nonlinear_arith)
            requires
                0 <= unpadded <= 0xFFFF_FFFF,
                0 <= height <= 0xFFFF_FFFF,
        ;
        if unpadded * height as u64 > u32::MAX as u64 {
            return None;
        }
        assert(0 <= padded * height <= 0xFFFF_FFFF * 0xFFFF_FFFF) by (nonlinear_arith)
            requires
                0 <= padded <= 0xFFFF_FFFF,
                0 <= height <= 0xFFFF_FFFF,
        ;
        Some(
            ReadbackPlan {
                width,
                height,
                unpadded_bytes_per_row: unpadded as u32,
                padded_bytes_per_row: padded as u32,
                buffer_size: padded * height as u64,
            },
        )
    }
}

/// Whether a format stores blue before red.
pub open spec fn stores_blue_first(format: TextureFormat) -> bool {
    format == TextureFormat::Bgra8Unorm || format == TextureFormat::Bgra8UnormSrgb
}

/// Where in a row the byte `j` of the image comes from: red and blue change places where blue is
/// stored first.
pub open spec fn source_byte(j: int, blue_first: bool) -> int {
    if blue_first && j % 4 == 0 {
        j + 2
    } else if blue_first && j % 4 == 2 {
        j - 2
    } else {
        j
    }
}

/// The byte `i` of the image of a mapped buffer.
pub open spec fn captured_byte(plan: ReadbackPlan, mapped: Seq<u8>, blue_first: bool, i: int) -> u8 {
    let row = i / (plan.unpadded_bytes_per_row as int);
    let j = i % (plan.unpadded_bytes_per_row as int);
    mapped[row * plan.padded_bytes_per_row + source_byte(j, blue_first)]
}

pub open spec fn captured(plan: ReadbackPlan, mapped: Seq<u8>, blue_first: bool) -> Seq<u8> {
    Seq::new(
        (plan.unpadded_bytes_per_row * plan.height) as nat,
        |i: int| captured_byte(plan, mapped, blue_first, i),
    )
}

/// Takes the image out of a mapped buffer: the padding of rows is dropped, and bytes are put into the
/// order red, green, blue, alpha.
pub fn unpack_rows(plan: &ReadbackPlan, mapped: &[u8], format: TextureFormat) -> (frame:
    CapturedFrame)
    requires
        plan.well_formed(),
        mapped@.len() >= plan.buffer_size,
    ensures
        frame.width == plan.width,
        frame.height == plan.height,
        frame.rgba@ == captured(*plan, mapped@, stores_blue_first(format)),
{
    let blue_first = format == TextureFormat::Bgra8Unorm || format == TextureFormat::Bgra8UnormSrgb;
    let unpadded: usize = plan.unpadded_bytes_per_row as usize;
    let padded: usize = plan.padded_bytes_per_row as usize;
    let ghost all = captured(*plan, mapped@, blue_first);
    let total: usize = mapped.len();
    let mut rgba: Vec<u8> = Vec::new();
    let mut row: usize = 0;
    while row < plan.height as usize
        invariant
            plan.well_formed(),
            plan.buffer_size <= mapped@.len() == total,
            unpadded == plan.unpadded_bytes_per_row,
            padded == plan.padded_bytes_per_row,
            all == captured(*plan, mapped@, blue_first),
            row <= plan.height,
            rgba@.len() == row * unpadded,
            rgba@ =~= all.take(row * unpadded),
        decreases plan.height - row,
    {
        proof {
            lemma_rows(*plan, row as int);
        }
        let start: usize = row * padded;
        let mut j: usize = 0;
        while j < unpadded
            invariant
                plan.well_formed(),
                plan.buffer_size <= mapped@.len() == total,
                unpadded == plan.unpadded_bytes_per_row,
                padded == plan.padded_bytes_per_row,
                unpadded == plan.width * 4,
                all == captured(*plan, mapped@, blue_first),
                row < plan.height,
                start == row * padded,
                start + unpadded <= plan.buffer_size,
                row * unpadded + unpadded <= all.len(),
                j <= unpadded,
                rgba@ =~= all.take(row * unpadded + j),
            decreases unpadded - j,
        {
            let source: usize = if blue_first && j % 4 == 0 {
                j + 2
            } else if blue_first && j % 4 == 2 {
                j - 2
            } else {
                j
            };
            let ghost i = row * unpadded + j;
            proof {
                vstd::arithmetic::div_mod::lemma_fundamental_div_mod_converse(
                    i,
                    unpadded as int,
                    row as int,
                    j as int,
                );
            }
            rgba.push(mapped[start + source]);
            assert(all[i] == mapped@[start + source]);
            j = j + 1;
            assert(rgba@ =~= all.take(row * unpadded + j));
        }
        assert((row + 1) * unpadded == row * unpadded + unpadded) by (nonlinear_arith);
        row = row + 1;
    }
    assert(plan.height * unpadded == unpadded * plan.height) by (nonlinear_arith);
    assert(rgba@ =~= all);
    CapturedFrame { width: plan.width, height: plan.height, rgba }
}

proof fn lemma_rows(plan: ReadbackPlan, row: int)
    requires
        plan.well_formed(),
        0 <= row < plan.height,
    ensures
        plan.unpadded_bytes_per_row <= plan.padded_bytes_per_row,
        0 <= row * plan.padded_bytes_per_row,
        row * plan.padded_bytes_per_row + plan.unpadded_bytes_per_row <= plan.buffer_size,
        row * plan.unpadded_bytes_per_row + plan.unpadded_bytes_per_row
            <= plan.unpadded_bytes_per_row * plan.height,
{
    let p = plan.padded_bytes_per_row as int;
    let u = plan.unpadded_bytes_per_row as int;
    let h = plan.height as int;
    assert(0 <= row * p && row * p + p <= p * h) by (nonlinear_arith)
        requires
            0 <= row,
            row + 1 <= h,
            p >= 0,
    ;
    assert(row * u + u <= u * h) by (nonlinear_arith)
        requires
            row + 1 <= h,
            u >= 0,
    ;
}

/// Red and blue change places and back: a byte that is moved twice is where it was.
pub proof fn channels_swap_in_pairs(j: int)
    requires
        0 <= j,
    ensures
        source_byte(source_byte(j, true), true) == j,
        source_byte(j, true) / 4 == j / 4,
        source_byte(j, false) == j,
{
}

/// A pixel of the image holds the four bytes of the pixel in the buffer, alpha and green in place.
pub proof fn captured_pixels_are_the_pixels(
    plan: ReadbackPlan,
    mapped: Seq<u8>,
    blue_first: bool,
    x: int,
    y: int,
    channel: int,
)
    requires
        plan.well_formed(),
        0 <= x < plan.width,
        0 <= y < plan.height,
        0 <= channel < 4,
    ensures
        0 <= (y * plan.width + x) * 4 + channel < captured(plan, mapped, blue_first).len(),
        captured(plan, mapped, blue_first)[(y * plan.width + x) * 4 + channel] == mapped[y
            * plan.padded_bytes_per_row + x * 4 + (if blue_first && channel == 0 {
            2int
        } else if blue_first && channel == 2 {
            0
        } else {
            channel
        })],
{
    let u = plan.unpadded_bytes_per_row as int;
    let w = plan.width as int;
    let i = (y * w + x) * 4 + channel;
    assert(i == y * u + (x * 4 + channel)) by (nonlinear_arith)
        requires
            i == (y * w + x) * 4 + channel,
            u == w * 4,
    ;
    vstd::arithmetic::div_mod::lemma_fundamental_div_mod_converse(i, u, y, x * 4 + channel);
    assert(y * u + u <= u * plan.height) by (nonlinear_arith)
        requires
            y + 1 <= plan.height,
            u >= 0,
    ;
    assert(0 <= y * u) by (nonlinear_arith)
        requires
            y >= 0,
            u >= 0,
    ;
}

/// A row of pixels has four bytes for each, and starts at the next multiple of 256 after the row
/// before it; no image is read back whose rows or pixels take more than 32 bits to count.
pub proof fn rows_start_at_multiples(plan: ReadbackPlan)
    requires
        plan.well_formed(),
    ensures
        plan.unpadded_bytes_per_row == 4 * plan.width,
        plan.padded_bytes_per_row % 256 == 0,
        plan.padded_bytes_per_row >= 4 * plan.width,
        plan.padded_bytes_per_row < 4 * plan.width + 256,
        plan.buffer_size == plan.padded_bytes_per_row * plan.height,
{
}

/// An image can be read back exactly where the bytes of a padded row and the bytes of all pixels can
/// be counted in 32 bits.
pub proof fn captures_fit_32_bits(width: u32, height: u32)
    ensures
        can_capture(width, height) <==> 4 * width <= 0xFFFF_FF00 && 4 * width * height
            <= 0xFFFF_FFFF,
{
}

/// Blue comes first in the two formats that say so, and in no other.
pub proof fn blue_comes_first_where_the_format_says(format: TextureFormat)
    ensures
        stores_blue_first(TextureFormat::Bgra8Unorm),
        stores_blue_first(TextureFormat::Bgra8UnormSrgb),
        format != TextureFormat::Bgra8Unorm && format != TextureFormat::Bgra8UnormSrgb
            ==> !stores_blue_first(format),
{
}

} // verus!
