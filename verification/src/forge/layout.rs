//! Where things go: the shapes of graphics, the bars and modules of barcodes, the line of
//! text under a barcode, and the pixels of a bitmap.

use vstd::prelude::*;
use crate::text::{chars_of, string_of};
use super::color::Rgb;

verus! {

/// A filled shape on the drawing surface.
#[derive(Debug, Clone, Copy, PartialEq, Eq, Structural)]
pub enum Shape {
    /// A rectangle by its top left corner and its size; neither side is zero.
    Rect { x: i64, y: i64, width: u32, height: u32, color: Rgb },
    /// A circle by its centre and its radius.
    Circle { x: i64, y: i64, radius: u32, color: Rgb },
    /// An ellipse by its centre and its two radii.
    Ellipse { x: i64, y: i64, radius_x: u32, radius_y: u32, color: Rgb },
}

/// The smaller of two numbers.
pub open spec fn least(a: int, b: int) -> int {
    if a <= b {
        a
    } else {
        b
    }
}

/// The larger of two numbers.
pub open spec fn most(a: int, b: int) -> int {
    if a >= b {
        a
    } else {
        b
    }
}

/// The corner radius of a box in dots: eight dots per step of rounding, and no more
/// than a signed 32-bit number holds.
pub open spec fn corner_radius(rounding: u32) -> u32 {
    least(rounding * 8, i32::MAX as int) as u32
}

/// The shapes that fill a rectangle with rounded corners. A radius of zero gives the
/// plain rectangle. Otherwise the radius is cut down to half the shorter side, and the
/// rectangle is made of a tall bar, a wide bar and a circle in each corner.
pub open spec fn rounded_fill(x: i64, y: i64, width: u32, height: u32, radius: u32, color: Rgb) -> Seq<
    Shape,
> {
    if width == 0 || height == 0 {
        Seq::empty()
    } else if radius == 0 {
        seq![Shape::Rect { x, y, width, height, color }]
    } else {
        let r = least(least(radius as int, width as int / 2), height as int / 2);
        let inner_width = most(width - 2 * r, 1) as u32;
        let inner_height = most(height - 2 * r, 1) as u32;
        seq![
            Shape::Rect { x: (x + r) as i64, y, width: inner_width, height, color },
            Shape::Rect { x, y: (y + r) as i64, width, height: inner_height, color },
            Shape::Circle { x: (x + r) as i64, y: (y + r) as i64, radius: r as u32, color },
            Shape::Circle {
                x: (x + width - r - 1) as i64,
                y: (y + r) as i64,
                radius: r as u32,
                color,
            },
            Shape::Circle {
                x: (x + r) as i64,
                y: (y + height - r - 1) as i64,
                radius: r as u32,
                color,
            },
            Shape::Circle {
                x: (x + width - r - 1) as i64,
                y: (y + height - r - 1) as i64,
                radius: r as u32,
                color,
            },
        ]
    }
}

/// The shapes of a box with its top left corner at `(x, y)`: the outline filled in the
/// drawing colour, and, where the border is thinner than half of either side, the inside
/// filled in the clearing colour. A side of zero counts as one.
pub open spec fn box_shapes_of(
    x: u32,
    y: u32,
    width: u32,
    height: u32,
    thickness: u32,
    rounding: u32,
    draw: Rgb,
    clear: Rgb,
) -> Seq<Shape> {
    let w = most(width as int, 1) as u32;
    let h = most(height as int, 1) as u32;
    let r = corner_radius(rounding);
    let outer = rounded_fill(x as i64, y as i64, w, h, r, draw);
    if thickness * 2 < w && thickness * 2 < h {
        outer + rounded_fill(
            (x + thickness) as i64,
            (y + thickness) as i64,
            (w - thickness * 2) as u32,
            (h - thickness * 2) as u32,
            most(r - thickness, 0) as u32,
            clear,
        )
    } else {
        outer
    }
}

/// The shapes of a circle whose box has its top left corner at `(x, y)`: the disc in the
/// drawing colour, and, where the border is thinner than the radius, the inner disc in
/// the clearing colour.
pub open spec fn circle_shapes_of(x: u32, y: u32, radius: u32, thickness: u32, draw: Rgb, clear: Rgb) -> Seq<
    Shape,
> {
    let disc = Shape::Circle { x: (x + radius) as i64, y: (y + radius) as i64, radius, color: draw };
    if radius > thickness {
        seq![
            disc,
            Shape::Circle {
                x: (x + radius) as i64,
                y: (y + radius) as i64,
                radius: (radius - thickness) as u32,
                color: clear,
            },
        ]
    } else {
        seq![disc]
    }
}

/// The shapes of an ellipse whose box has its top left corner at `(x, y)`: the ellipse in
/// the drawing colour, and, where the border is thinner than both radii, the inner
/// ellipse in the clearing colour.
pub open spec fn ellipse_shapes_of(
    x: u32,
    y: u32,
    width: u32,
    height: u32,
    thickness: u32,
    draw: Rgb,
    clear: Rgb,
) -> Seq<Shape> {
    let rx = width / 2;
    let ry = height / 2;
    let outer = Shape::Ellipse {
        x: (x + rx) as i64,
        y: (y + ry) as i64,
        radius_x: rx,
        radius_y: ry,
        color: draw,
    };
    if rx > thickness && ry > thickness {
        seq![
            outer,
            Shape::Ellipse {
                x: (x + rx) as i64,
                y: (y + ry) as i64,
                radius_x: (rx - thickness) as u32,
                radius_y: (ry - thickness) as u32,
                color: clear,
            },
        ]
    } else {
        seq![outer]
    }
}

/// Fills a rectangle with rounded corners.
fn fill_rounded(x: i64, y: i64, width: u32, height: u32, radius: u32, color: Rgb) -> (shapes: Vec<
    Shape,
>)
    requires
        0 <= x <= 2 * u32::MAX,
        0 <= y <= 2 * u32::MAX,
    ensures
        shapes@ == rounded_fill(x, y, width, height, radius, color),
{
    let mut shapes: Vec<Shape> = Vec::new();
    if width == 0 || height == 0 {
        return shapes;
    }
    if radius == 0 {
        shapes.push(Shape::Rect { x, y, width, height, color });
        return shapes;
    }
    let mut r = radius;
    if width / 2 < r {
        r = width / 2;
    }
    if height / 2 < r {
        r = height / 2;
    }
    let inner_width = if width - 2 * r < 1 {
        1
    } else {
        width - 2 * r
    };
    let inner_height = if height - 2 * r < 1 {
        1
    } else {
        height - 2 * r
    };
    let left = x + r as i64;
    let top = y + r as i64;
    let right = x + width as i64 - r as i64 - 1;
    let bottom = y + height as i64 - r as i64 - 1;
    shapes.push(Shape::Rect { x: left, y, width: inner_width, height, color });
    shapes.push(Shape::Rect { x, y: top, width, height: inner_height, color });
    shapes.push(Shape::Circle { x: left, y: top, radius: r, color });
    shapes.push(Shape::Circle { x: right, y: top, radius: r, color });
    shapes.push(Shape::Circle { x: left, y: bottom, radius: r, color });
    shapes.push(Shape::Circle { x: right, y: bottom, radius: r, color });
    shapes
}

/// The shapes of a box, in the order in which they are drawn.
pub fn box_shapes(
    x: u32,
    y: u32,
    width: u32,
    height: u32,
    thickness: u32,
    rounding: u32,
    draw: Rgb,
    clear: Rgb,
) -> (shapes: Vec<Shape>)
    ensures
        shapes@ == box_shapes_of(x, y, width, height, thickness, rounding, draw, clear),
{
    let w = if width < 1 {
        1
    } else {
        width
    };
    let h = if height < 1 {
        1
    } else {
        height
    };
    let r: u32 = if rounding > 0x7FFF_FFFF / 8 {
        0x7FFF_FFFF
    } else {
        rounding * 8
    };
    let mut shapes = fill_rounded(x as i64, y as i64, w, h, r, draw);
    if (thickness as u64) * 2 < w as u64 && (thickness as u64) * 2 < h as u64 {
        let inner_radius = if r > thickness {
            r - thickness
        } else {
            0
        };
        let mut inner = fill_rounded(
            x as i64 + thickness as i64,
            y as i64 + thickness as i64,
            w - thickness * 2,
            h - thickness * 2,
            inner_radius,
            clear,
        );
        shapes.append(&mut inner);
    }
    shapes
}

/// The shapes of a circle, in the order in which they are drawn.
pub fn circle_shapes(x: u32, y: u32, radius: u32, thickness: u32, draw: Rgb, clear: Rgb) -> (shapes:
    Vec<Shape>)
    ensures
        shapes@ == circle_shapes_of(x, y, radius, thickness, draw, clear),
{
    let mut shapes: Vec<Shape> = Vec::new();
    let cx = x as i64 + radius as i64;
    let cy = y as i64 + radius as i64;
    shapes.push(Shape::Circle { x: cx, y: cy, radius, color: draw });
    if radius > thickness {
        shapes.push(Shape::Circle { x: cx, y: cy, radius: radius - thickness, color: clear });
    }
    shapes
}

/// The shapes of an ellipse, in the order in which they are drawn.
pub fn ellipse_shapes(
    x: u32,
    y: u32,
    width: u32,
    height: u32,
    thickness: u32,
    draw: Rgb,
    clear: Rgb,
) -> (shapes: Vec<Shape>)
    ensures
        shapes@ == ellipse_shapes_of(x, y, width, height, thickness, draw, clear),
{
    let mut shapes: Vec<Shape> = Vec::new();
    let rx = width / 2;
    let ry = height / 2;
    let cx = x as i64 + rx as i64;
    let cy = y as i64 + ry as i64;
    shapes.push(Shape::Ellipse { x: cx, y: cy, radius_x: rx, radius_y: ry, color: draw });
    if rx > thickness && ry > thickness {
        shapes.push(
            Shape::Ellipse {
                x: cx,
                y: cy,
                radius_x: rx - thickness,
                radius_y: ry - thickness,
                color: clear,
            },
        );
    }
    shapes
}

/// A rectangle on the drawing surface.
#[derive(Debug, Clone, Copy, PartialEq, Eq, Structural)]
pub struct Placed {
    pub x: i64,
    pub y: i64,
    pub width: u32,
    pub height: u32,
}

/// Where a rectangle of an upright symbol lands on the surface once the symbol is
/// turned. The symbol is `full_width` by `full_height` when upright and has its top
/// left corner at `(x, y)`; the rectangle lies at `(left, top)` inside it. `N` leaves
/// the symbol upright, `R` turns it a quarter clockwise, `I` turns it upside down and
/// `B` turns it a quarter the other way; every other letter means `N`.
pub open spec fn placed(
    orientation: char,
    x: u32,
    y: u32,
    left: u32,
    top: u32,
    width: u32,
    height: u32,
    full_width: u32,
    full_height: u32,
) -> Placed {
    if orientation == 'R' {
        Placed {
            x: (x + full_height - (top + height)) as i64,
            y: (y + left) as i64,
            width: height,
            height: width,
        }
    } else if orientation == 'I' {
        Placed {
            x: (x + full_width - (left + width)) as i64,
            y: (y + full_height - (top + height)) as i64,
            width,
            height,
        }
    } else if orientation == 'B' {
        Placed {
            x: (x + top) as i64,
            y: (y + full_width - (left + width)) as i64,
            width: height,
            height: width,
        }
    } else {
        Placed { x: (x + left) as i64, y: (y + top) as i64, width, height }
    }
}

/// Where a rectangle of an upright symbol lands once the symbol is turned.
pub fn place(
    orientation: char,
    x: u32,
    y: u32,
    left: u32,
    top: u32,
    width: u32,
    height: u32,
    full_width: u32,
    full_height: u32,
) -> (r: Placed)
    ensures
        r == placed(orientation, x, y, left, top, width, height, full_width, full_height),
{
    let x = x as i64;
    let y = y as i64;
    let right = left as i64 + width as i64;
    let bottom = top as i64 + height as i64;
    if orientation == 'R' {
        Placed { x: x + full_height as i64 - bottom, y: y + left as i64, width: height, height: width }
    } else if orientation == 'I' {
        Placed { x: x + full_width as i64 - right, y: y + full_height as i64 - bottom, width, height }
    } else if orientation == 'B' {
        Placed { x: x + top as i64, y: y + full_width as i64 - right, width: height, height: width }
    } else {
        Placed { x: x + left as i64, y: y + top as i64, width, height }
    }
}

/// The product of two 32-bit numbers.
fn times(a: u32, b: u32) -> (product: u64)
    ensures
        product == a * b,
{
    assert(a * b <= 0xFFFF_FFFF * 0xFFFF_FFFF) by (nonlinear_arith)
        requires
            a <= 0xFFFF_FFFF,
            b <= 0xFFFF_FFFF,
    ;
    a as u64 * b as u64
}

/// The width of a bar or the side of a module: at least one dot.
pub open spec fn module_size(given: u32) -> u32 {
    if given < 1 {
        1
    } else {
        given
    }
}

/// The rectangle of bar `index` of a barcode of `columns` bars, each `module_width` wide
/// and `height` high. There is none where the bar has no height or the barcode is wider
/// than 32 bits can say.
pub open spec fn bar_of(
    orientation: char,
    x: u32,
    y: u32,
    index: u32,
    columns: u32,
    module_width: u32,
    height: u32,
) -> Option<Placed> {
    let side = module_size(module_width);
    if height == 0 || index >= columns || columns * side > u32::MAX {
        None
    } else {
        Some(
            placed(
                orientation,
                x,
                y,
                (index * side) as u32,
                0,
                side,
                height,
                (columns * side) as u32,
                height,
            ),
        )
    }
}

/// The rectangle of a bar of a barcode.
pub fn bar_rect(
    orientation: char,
    x: u32,
    y: u32,
    index: u32,
    columns: u32,
    module_width: u32,
    height: u32,
) -> (r: Option<Placed>)
    ensures
        r == bar_of(orientation, x, y, index, columns, module_width, height),
{
    let side: u32 = if module_width < 1 {
        1
    } else {
        module_width
    };
    if height == 0 || index >= columns || times(columns, side) > u32::MAX as u64 {
        return None;
    }
    assert(index * side <= columns * side) by (nonlinear_arith)
        requires
            index < columns,
    ;
    Some(place(orientation, x, y, index * side, 0, side, height, columns * side, height))
}

/// The rectangle of the module in column `column` and row `row` of a matrix code of
/// `columns` by `rows` modules, each `magnification` dots wide and high. There is none
/// where the module lies outside the matrix or the code is larger than 32 bits can say.
pub open spec fn module_of(
    orientation: char,
    x: u32,
    y: u32,
    column: u32,
    row: u32,
    columns: u32,
    rows: u32,
    magnification: u32,
) -> Option<Placed> {
    let side = module_size(magnification);
    if column >= columns || row >= rows || columns * side > u32::MAX || rows * side > u32::MAX {
        None
    } else {
        Some(
            placed(
                orientation,
                x,
                y,
                (column * side) as u32,
                (row * side) as u32,
                side,
                side,
                (columns * side) as u32,
                (rows * side) as u32,
            ),
        )
    }
}

/// The rectangle of a module of a matrix code.
pub fn module_rect(
    orientation: char,
    x: u32,
    y: u32,
    column: u32,
    row: u32,
    columns: u32,
    rows: u32,
    magnification: u32,
) -> (r: Option<Placed>)
    ensures
        r == module_of(orientation, x, y, column, row, columns, rows, magnification),
{
    let side: u32 = if magnification < 1 {
        1
    } else {
        magnification
    };
    if column >= columns || row >= rows || times(columns, side) > u32::MAX as u64 || times(
        rows,
        side,
    ) > u32::MAX as u64 {
        return None;
    }
    assert(column * side <= columns * side && row * side <= rows * side) by (nonlinear_arith)
        requires
            column < columns,
            row < rows,
    ;
    Some(
        place(
            orientation,
            x,
            y,
            column * side,
            row * side,
            side,
            side,
            columns * side,
            rows * side,
        ),
    )
}

/// The width and height that a barcode takes up: as it is when upright or upside down,
/// with the two swapped when it is turned a quarter.
pub open spec fn extent_of(orientation: char, width: u32, height: u32) -> (u32, u32) {
    if orientation == 'R' || orientation == 'B' {
        (height, width)
    } else {
        (width, height)
    }
}

/// The width and height that a barcode takes up.
pub fn barcode_extent(orientation: char, width: u32, height: u32) -> (r: (u32, u32))
    ensures
        r == extent_of(orientation, width, height),
{
    if orientation == 'R' || orientation == 'B' {
        (height, width)
    } else {
        (width, height)
    }
}

/// The height of the text of an interpretation line.
pub const INTERPRETATION_TEXT_HEIGHT: u32 = 18;

/// The gap between a barcode and its interpretation line.
pub const INTERPRETATION_GAP: u32 = 6;

/// The sum of two numbers, or the largest number if the sum is larger.
pub open spec fn capped_sum(a: u32, b: u32) -> u32 {
    least(a + b, u32::MAX as int) as u32
}

/// Where the interpretation line of a barcode starts. The barcode has its top left
/// corner at `(x, y)` and takes up `full_width` by `full_height`. The line stands below
/// the barcode, or above it if `above` is `Y`, with a gap in between, and is centred
/// under the barcode unless the text is wider than the barcode.
pub open spec fn interpretation_origin_of(
    x: u32,
    y: u32,
    full_width: u32,
    full_height: u32,
    above: char,
    text_width: u32,
) -> (u32, u32) {
    let line = if above == 'Y' {
        most(y - INTERPRETATION_TEXT_HEIGHT, 0) as u32
    } else {
        capped_sum(y, full_height)
    };
    let start = if full_width > text_width {
        capped_sum(x, ((full_width - text_width) / 2) as u32)
    } else {
        x
    };
    (start, capped_sum(line, INTERPRETATION_GAP))
}

/// The sum of two numbers, or the largest number if the sum is larger.
fn add_capped(a: u32, b: u32) -> (r: u32)
    ensures
        r == capped_sum(a, b),
{
    if b > u32::MAX - a {
        u32::MAX
    } else {
        a + b
    }
}

/// Where the interpretation line of a barcode starts.
pub fn interpretation_origin(
    x: u32,
    y: u32,
    full_width: u32,
    full_height: u32,
    above: char,
    text_width: u32,
) -> (r: (u32, u32))
    ensures
        r == interpretation_origin_of(x, y, full_width, full_height, above, text_width),
{
    let line = if above == 'Y' {
        if y > INTERPRETATION_TEXT_HEIGHT {
            y - INTERPRETATION_TEXT_HEIGHT
        } else {
            0
        }
    } else {
        add_capped(y, full_height)
    };
    let start = if full_width > text_width {
        add_capped(x, (full_width - text_width) / 2)
    } else {
        x
    };
    (start, add_capped(line, INTERPRETATION_GAP))
}

/// The code set that the data of a Code 128 barcode asks for with its first two
/// characters: `>:` for B, `>;` for C, `>9` for A.
pub open spec fn code_set_of(data: Seq<char>) -> Option<char> {
    if data.len() >= 2 && data[0] == '>' {
        if data[1] == ':' {
            Some('B')
        } else if data[1] == ';' {
            Some('C')
        } else if data[1] == '9' {
            Some('A')
        } else {
            None
        }
    } else {
        None
    }
}

/// The data of a Code 128 barcode without the two characters that ask for a code set.
pub open spec fn code_data_of(data: Seq<char>) -> Seq<char> {
    if code_set_of(data) is Some {
        data.subrange(2, data.len() as int)
    } else {
        data
    }
}

/// Splits the data of a Code 128 barcode into what is encoded and the code set that it
/// asks for, if any.
pub fn code128_code_set(data: &str) -> (r: (String, Option<char>))
    ensures
        r.0@ == code_data_of(data@),
        r.1 == code_set_of(data@),
{
    let chars = chars_of(data);
    let mut set: Option<char> = None;
    if chars.len() >= 2 && chars[0] == '>' {
        if chars[1] == ':' {
            set = Some('B');
        } else if chars[1] == ';' {
            set = Some('C');
        } else if chars[1] == '9' {
            set = Some('A');
        }
    }
    let start: usize = if set.is_some() {
        2
    } else {
        0
    };
    (string_of(chars.as_slice(), start, chars.len()), set)
}

/// The error correction level of a QR code: `L`, `M`, `Q` or `H`, and `M` for every
/// other letter.
pub open spec fn qr_level_of(error_correction: char) -> char {
    if error_correction == 'L' || error_correction == 'Q' || error_correction == 'H' {
        error_correction
    } else {
        'M'
    }
}

/// The error correction level of a QR code.
pub fn qr_level(error_correction: char) -> (level: char)
    ensures
        level == qr_level_of(error_correction),
{
    if error_correction == 'L' || error_correction == 'Q' || error_correction == 'H' {
        error_correction
    } else {
        'M'
    }
}

/// The number of bytes in a row of a bitmap that is `width` pixels wide.
pub open spec fn bitmap_row_bytes(width: u32) -> int {
    (width + 7) / 8
}

/// Whether the pixel in column `column` of row `row` of a bitmap is set. The bitmap is
/// `width` by `height` pixels, its rows are whole bytes, and the most significant bit of
/// a byte is its leftmost pixel. Pixels outside the bitmap, and pixels for which the
/// data is too short, are not set.
pub open spec fn pixel_set(data: Seq<u8>, width: u32, height: u32, column: u32, row: u32) -> bool {
    let index = row * bitmap_row_bytes(width) + column / 8;
    &&& column < width
    &&& row < height
    &&& index < data.len()
    &&& (data[index] as int / crate::tools::encode::bit_weight((column % 8) as nat) as int) % 2 == 1
}

/// Whether a pixel of a bitmap is set.
pub fn bitmap_pixel(data: &Vec<u8>, width: u32, height: u32, column: u32, row: u32) -> (set: bool)
    ensures
        set == pixel_set(data@, width, height, column, row),
{
    if column >= width || row >= height {
        return false;
    }
    let row_bytes: u32 = width / 8 + if width % 8 == 0 {
        0
    } else {
        1
    };
    assert(row * row_bytes <= 0xFFFF_FFFF * 0x2000_0000) by (nonlinear_arith)
        requires
            row <= 0xFFFF_FFFF,
            row_bytes <= 0x2000_0000,
    ;
    let index: u64 = times(row, row_bytes) + (column / 8) as u64;
    if index >= data.len() as u64 {
        return false;
    }
    let byte = data[index as usize];
    let bit = column % 8;
    let weight: u8 = if bit == 0 {
        128
    } else if bit == 1 {
        64
    } else if bit == 2 {
        32
    } else if bit == 3 {
        16
    } else if bit == 4 {
        8
    } else if bit == 5 {
        4
    } else if bit == 6 {
        2
    } else {
        1
    };
    (byte / weight) % 2 == 1
}

/// The part of a canvas that inverting a rectangle touches, as columns `left..right` and
/// rows `top..bottom`. The rectangle has its top left corner at `(x, y)`. Its last
/// column and its last row are left out, and a rectangle that ends before the canvas
/// begins reaches to the far side of the canvas.
pub open spec fn inverted_area_of(x: i64, y: i64, width: u32, height: u32, canvas_width: u32, canvas_height: u32) -> (
    u32,
    u32,
    u32,
    u32,
) {
    (
        inverted_start(x, canvas_width),
        inverted_start(y, canvas_height),
        inverted_end(x, width, canvas_width),
        inverted_end(y, height, canvas_height),
    )
}

/// Where the inverted span starts: at the rectangle, but not before the canvas.
pub open spec fn inverted_start(start: i64, limit: u32) -> u32 {
    if start < 0 {
        0
    } else if start > limit {
        limit
    } else {
        start as u32
    }
}

/// Where the inverted span ends: before the last column of the rectangle, but not
/// beyond the canvas.
pub open spec fn inverted_end(start: i64, length: u32, limit: u32) -> u32 {
    let last = start + length - 1;
    if last < 0 || last > limit {
        limit
    } else {
        last as u32
    }
}

/// Where the inverted span starts and ends.
fn inverted_span(start: i64, length: u32, limit: u32) -> (r: (u32, u32))
    ensures
        r.0 == inverted_start(start, limit),
        r.1 == inverted_end(start, length, limit),
{
    if start > limit as i64 {
        (limit, limit)
    } else if start < -(u32::MAX as i64) {
        (0, limit)
    } else {
        let first: u32 = if start < 0 {
            0
        } else {
            start as u32
        };
        let last = start + length as i64 - 1;
        let end: u32 = if last < 0 || last > limit as i64 {
            limit
        } else {
            last as u32
        };
        (first, end)
    }
}

/// The part of a canvas that inverting a placed rectangle touches.
pub fn inverted_area(rect: &Placed, canvas_width: u32, canvas_height: u32) -> (r: (u32, u32, u32, u32))
    ensures
        r == inverted_area_of(rect.x, rect.y, rect.width, rect.height, canvas_width, canvas_height),
{
    let (left, right) = inverted_span(rect.x, rect.width, canvas_width);
    let (top, bottom) = inverted_span(rect.y, rect.height, canvas_height);
    (left, top, right, bottom)
}

} // verus!
