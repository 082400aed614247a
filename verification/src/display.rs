//! What the viewer's window needs of an image: its pixels as bottom-padded
//! BGR scan lines, and where in the client area they go.

use vstd::prelude::*;
use vstd::arithmetic::div_mod::lemma_fundamental_div_mod_converse;

verus! {

/// Width of the area in which an image is shown, in pixels.
pub const DISPLAY_WIDTH: u32 = 640;

/// Height of the area in which an image is shown, in pixels.
pub const DISPLAY_HEIGHT: u32 = 480;

/// Height of the strip above the image area, where the button sits.
pub const TOOLBAR_HEIGHT: i32 = 32;

/// The most RGB bytes that an image to show may hold: one full area.
pub const DISPLAY_CAPACITY: usize = 640 * 480 * 3;

/// Identifier of the button that opens a file.
pub const ID_OPEN_BUTTON: u32 = 2100;

/// Why an image cannot be shown.
#[derive(Debug, Clone, Copy, PartialEq, Eq)]
pub enum DisplayError {
    /// The RGB buffer of `len` bytes is larger than the display takes, or
    /// is not three bytes for each pixel.
    InvalidDataLength { len: usize },
}

/// Bytes in one scan line: three per pixel, rounded up to a multiple of four.
pub open spec fn row_stride(width: u32) -> int {
    (3 * width + 3) / 4 * 4
}

/// The byte at index `at` of the scan lines of the RGB image `rgb`: within a
/// line the pixels come first, each as blue, green, red, then zeros up to
/// the stride.
pub open spec fn bgr_row_byte(rgb: Seq<u8>, width: u32, at: int) -> u8 {
    let row = at / row_stride(width);
    let column = at % row_stride(width);
    if column < 3 * width {
        rgb[row * (3 * width) + column / 3 * 3 + (2 - column % 3)]
    } else {
        0
    }
}

/// The scan lines of an RGB image of `width * height` pixels, top row first.
pub open spec fn bgr_rows(rgb: Seq<u8>, width: u32, height: u32) -> Seq<u8> {
    Seq::new((row_stride(width) * height) as nat, |at: int| bgr_row_byte(rgb, width, at))
}

/// What `pack_bgr_rows` yields.
pub open spec fn packed(rgb: Seq<u8>, width: u32, height: u32) -> Result<Seq<u8>, DisplayError> {
    if rgb.len() > DISPLAY_CAPACITY || rgb.len() != 3 * width * height {
        Err(DisplayError::InvalidDataLength { len: rgb.len() as usize })
    } else {
        Ok(bgr_rows(rgb, width, height))
    }
}

/// The byte in `row` at `column` of the scan lines, without the division.
proof fn lemma_row_byte(rgb: Seq<u8>, width: u32, row: int, column: int)
    requires
        0 <= row,
        0 <= column < row_stride(width),
    ensures
        bgr_row_byte(rgb, width, row * row_stride(width) + column) == if column < 3 * width {
            rgb[row * (3 * width) + column / 3 * 3 + (2 - column % 3)]
        } else {
            0u8
        },
{
    lemma_fundamental_div_mod_converse(
        row * row_stride(width) + column,
        row_stride(width),
        row,
        column,
    );
}

/// In the scan lines, each pixel stands where it stood in its row, with its
/// channels in the opposite order, and what follows the pixels of a line up
/// to the stride is zero.
pub proof fn lemma_bgr_rows_layout(rgb: Seq<u8>, width: u32, height: u32, row: int, column: int)
    requires
        0 <= row < height,
        0 <= column < row_stride(width),
    ensures
        bgr_rows(rgb, width, height).len() == row_stride(width) * height,
        3 * width <= row_stride(width) < 3 * width + 4,
        row * row_stride(width) + column < bgr_rows(rgb, width, height).len(),
        column < 3 * width ==> bgr_rows(rgb, width, height)[row * row_stride(width) + column]
            == rgb[(row * width + column / 3) * 3 + (2 - column % 3)],
        column >= 3 * width ==> bgr_rows(rgb, width, height)[row * row_stride(width) + column]
            == 0,
{
    let stride = row_stride(width);
    assert(0 <= row * stride && row * stride + stride <= stride * height) by (nonlinear_arith)
        requires
            0 <= row < height,
            0 <= stride,
    ;
    assert((row * width + column / 3) * 3 == row * (3 * width) + column / 3 * 3)
        by (nonlinear_arith);
    lemma_row_byte(rgb, width, row, column);
}

/// Lays out an RGB image of `width * height` pixels as scan lines for the
/// window: red and blue change places in every pixel, and each line is
/// filled with zeros to a multiple of four bytes.
pub fn pack_bgr_rows(rgb: &[u8], width: u32, height: u32) -> (r: Result<Vec<u8>, DisplayError>)
    ensures
        match r {
            Ok(rows) => packed(rgb@, width, height) == Ok::<Seq<u8>, DisplayError>(rows@),
            Err(e) => packed(rgb@, width, height) == Err::<Seq<u8>, DisplayError>(e),
        },
{
    let len = rgb.len();
    let invalid = DisplayError::InvalidDataLength { len };
    if len > DISPLAY_CAPACITY {
        return Err(invalid);
    }
    assert(width * height <= 0xFFFF_FFFF * 0xFFFF_FFFF) by (nonlinear_arith)
        requires
            0 <= width <= 0xFFFF_FFFF,
            0 <= height <= 0xFFFF_FFFF,
    ;
    let pixels: u64 = (width as u64) * (height as u64);
    if pixels > 307_200 || pixels * 3 != len as u64 {
        assert(3 * width * height == 3 * (width * height)) by (nonlinear_arith);
        return Err(invalid);
    }
    assert(3 * width * height == 3 * (width * height)) by (nonlinear_arith);
    let mut rows: Vec<u8> = Vec::new();
    if len == 0 {
        assert(row_stride(width) * height == 0) by (nonlinear_arith)
            requires
                width * height == 0,
                0 <= width,
                0 <= height,
                row_stride(width) == (3 * width + 3) / 4 * 4,
        ;
        assert(rows@ =~= bgr_rows(rgb@, width, height));
        return Ok(rows);
    }
    assert(1 <= width <= 307_200 && 1 <= height <= 307_200) by (nonlinear_arith)
        requires
            1 <= width * height <= 307_200,
            0 <= width,
            0 <= height,
    ;
    let line: usize = 3 * (width as usize);
    let padding: usize = (4 - line % 4) % 4;
    let stride: usize = line + padding;
    assert(stride == row_stride(width));
    assert(stride * height == line * height + padding * height && padding * height <= 3 * height)
        by (nonlinear_arith)
        requires
            stride == line + padding,
            0 <= padding <= 3,
            0 <= height,
    ;
    let mut row: usize = 0;
    while row < height as usize
        invariant
            0 <= row <= height,
            1 <= width <= 307_200,
            1 <= height <= 307_200,
            line == 3 * width,
            stride == row_stride(width),
            stride == line + padding,
            padding < 4,
            rgb@.len() == line * height,
            rgb@.len() <= 921_600,
            stride * height <= 1_843_200,
            rows@ =~= Seq::new((row * stride) as nat, |at: int| bgr_row_byte(rgb@, width, at)),
        decreases height - row,
    {
        assert(0 <= row * stride && row * stride + stride <= stride * height && 0 <= row * line
            && row * line + line <= line * height) by (nonlinear_arith)
            requires
                0 <= row < height,
                0 <= stride,
                0 <= line,
        ;
        let base: usize = row * line;
        let start: usize = row * stride;
        let mut pixel: usize = 0;
        while pixel < width as usize
            invariant
                0 <= pixel <= width,
                0 <= row < height,
                line == 3 * width,
                stride == row_stride(width),
                stride == line + padding,
                base == row * line,
                start == row * stride,
                base + line <= rgb@.len(),
                rgb@.len() <= 921_600,
                start + stride <= 1_843_200,
                rows@ =~= Seq::new(
                    (start + 3 * pixel) as nat,
                    |at: int| bgr_row_byte(rgb@, width, at),
                ),
            decreases width - pixel,
        {
            let at: usize = base + 3 * pixel;
            proof {
                lemma_row_byte(rgb@, width, row as int, 3 * pixel);
                lemma_row_byte(rgb@, width, row as int, 3 * pixel + 1);
                lemma_row_byte(rgb@, width, row as int, 3 * pixel + 2);
            }
            rows.push(rgb[at + 2]);
            rows.push(rgb[at + 1]);
            rows.push(rgb[at]);
            pixel += 1;
        }
        let mut filled: usize = 0;
        while filled < padding
            invariant
                0 <= filled <= padding,
                0 <= row < height,
                line == 3 * width,
                stride == row_stride(width),
                stride == line + padding,
                start == row * stride,
                start + stride <= 1_843_200,
                rows@ =~= Seq::new(
                    (start + line + filled) as nat,
                    |at: int| bgr_row_byte(rgb@, width, at),
                ),
            decreases padding - filled,
        {
            proof {
                lemma_row_byte(rgb@, width, row as int, line + filled);
            }
            rows.push(0);
            filled += 1;
        }
        assert((row + 1) * stride == start + stride) by (nonlinear_arith)
            requires
                start == row * stride,
        ;
        row += 1;
    }
    assert(row * stride == row_stride(width) * height) by (nonlinear_arith)
        requires
            row == height,
            stride == row_stride(width),
    ;
    Ok(rows)
}

/// Where a box of `size` starts when centred in `extent`; past the edge
/// where it is the larger. Halves are taken towards zero.
pub open spec fn centered(extent: int, size: int) -> int {
    if size <= extent {
        (extent - size) / 2
    } else {
        -((size - extent) / 2)
    }
}

fn center(extent: u32, size: u32) -> (offset: i32)
    requires
        extent <= 0x7FFF_FFFF,
    ensures
        offset == centered(extent as int, size as int),
{
    if size <= extent {
        ((extent - size) / 2) as i32
    } else {
        -(((size - extent) / 2) as i32)
    }
}

/// The client coordinates of the top left corner of an image of the given
/// size: centred in the image area, below the toolbar.
pub fn blit_origin(width: u32, height: u32) -> (origin: (i32, i32))
    ensures
        origin.0 == centered(DISPLAY_WIDTH as int, width as int),
        origin.1 == centered(DISPLAY_HEIGHT as int, height as int) + TOOLBAR_HEIGHT,
{
    (center(DISPLAY_WIDTH, width), center(DISPLAY_HEIGHT, height) + TOOLBAR_HEIGHT)
}

/// Whether a command message with this parameter is a click on the button
/// that opens a file: its low word is the button's identifier, and the word
/// above it, the notification code, is zero.
pub open spec fn is_open_click(w_param: usize) -> bool {
    (w_param as int) % 0x1_0000_0000 == ID_OPEN_BUTTON
}

/// Tells a click on the open button from every other command.
pub fn open_requested(w_param: usize) -> (requested: bool)
    ensures
        requested == is_open_click(w_param),
{
    let low: u64 = (w_param as u64) & 0xFFFF_FFFF;
    let notification: u64 = low >> 16;
    let id: u64 = low & 0xFFFF;
    assert(low == (w_param as u64) % 0x1_0000_0000 && (notification == 0 && id == 2100 <==> low
        == 2100)) by (bit_vector)
        requires
            low == (w_param as u64) & 0xFFFF_FFFF,
            notification == low >> 16,
            id == low & 0xFFFF,
    ;
    notification == 0 && id == ID_OPEN_BUTTON as u64
}

} // verus!
