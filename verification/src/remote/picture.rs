//! Cutting, enlarging and marking pictures of the screen.

use vstd::prelude::*;

verus! {

/// The largest width and height of a picture.
pub const SIDE_LIMIT: u32 = 0x1_0000;

/// A picture with four bytes for each pixel: red, green, blue and alpha, row by row.
#[derive(Clone, Debug)]
pub struct Frame {
    pub width: u32,
    pub height: u32,
    pub data: Vec<u8>,
}

/// A picture with one byte for each pixel.
#[derive(Clone, Debug)]
pub struct GrayFrame {
    pub width: u32,
    pub height: u32,
    pub data: Vec<u8>,
}

/// A region of the screen.
#[derive(Clone, Copy, Debug, PartialEq, Eq, Structural)]
pub struct RoiDef {
    pub x: u32,
    pub y: u32,
    pub w: u32,
    pub h: u32,
}

/// A pixel.
#[derive(Clone, Copy, Debug, PartialEq, Eq, Structural)]
pub struct Pixel {
    pub r: u8,
    pub g: u8,
    pub b: u8,
    pub a: u8,
}

impl Frame {
    /// Whether there are bytes for every pixel.
    pub open spec fn is_whole(&self) -> bool {
        self.data@.len() >= 4 * (self.height * self.width)
    }

    /// Whether there are bytes for every pixel and no others, and the sides are within limits.
    pub open spec fn wf(&self) -> bool {
        &&& self.width <= SIDE_LIMIT
        &&& self.height <= SIDE_LIMIT
        &&& self.data@.len() == 4 * (self.height * self.width)
    }

    /// The pixel in a column and a row.
    pub open spec fn at(&self, col: int, row: int) -> Pixel {
        pixel_at(self.data@, self.width as int, col, row)
    }
}

/// The pixel in a column and a row of bytes.
pub open spec fn pixel_at(data: Seq<u8>, width: int, col: int, row: int) -> Pixel {
    let k = 4 * (row * width + col);
    Pixel { r: data[k], g: data[k + 1], b: data[k + 2], a: data[k + 3] }
}

/// A pixel that nothing was drawn on.
pub open spec fn blank() -> Pixel {
    Pixel { r: 0, g: 0, b: 0, a: 0 }
}

/// Whether a pixel comes before another, row by row.
pub open spec fn precedes(col: int, row: int, to_col: int, to_row: int) -> bool {
    row < to_row || (row == to_row && col < to_col)
}

/// Pixels are numbered in the order in which rows are read.
pub proof fn order_of_pixels(width: int, col: int, row: int, to_col: int, to_row: int)
    requires
        0 <= col < width,
        0 <= row,
        0 <= to_col,
        precedes(col, row, to_col, to_row),
    ensures
        0 <= row * width + col < to_row * width + to_col,
{
    if row < to_row {
        assert(row * width + col < to_row * width + to_col && 0 <= row * width) by (nonlinear_arith)
            requires
                0 <= col < width,
                0 <= row < to_row,
                0 <= to_col,
        ;
    } else {
        assert(0 <= row * width) by (nonlinear_arith)
            requires
                0 <= row,
                0 < width,
        ;
    }
}

/// A row begins where the one before it ends.
pub proof fn next_row(width: int, row: int)
    ensures
        row * width + width == (row + 1) * width,
{
    assert(row * width + width == (row + 1) * width) by (nonlinear_arith);
}

proof fn area_fits(width: u32, height: u32)
    requires
        width <= SIDE_LIMIT,
        height <= SIDE_LIMIT,
    ensures
        0 <= height * width <= 0x1_0000_0000,
{
    assert(0 <= height * width <= 0x1_0000_0000) by (nonlinear_arith)
        requires
            width <= 0x1_0000,
            height <= 0x1_0000,
    ;
}

/// The bytes of a pixel.
pub open spec fn bytes_of(p: Pixel) -> Seq<u8> {
    seq![p.r, p.g, p.b, p.a]
}

fn push_pixel(data: &mut Vec<u8>, p: Pixel)
    ensures
        final(data)@ == old(data)@ + bytes_of(p),
{
    data.push(p.r);
    data.push(p.g);
    data.push(p.b);
    data.push(p.a);
    assert(data@ =~= old(data)@ + bytes_of(p));
}

/// Pixels stay where they are when another one follows.
proof fn pixels_stay(data: Seq<u8>, p: Pixel, width: int, col: int, row: int)
    requires
        0 <= col < width,
        0 <= row,
        data.len() == 4 * (row * width + col),
    ensures
        pixel_at(data + bytes_of(p), width, col, row) == p,
        forall|c: int, r: int|
            0 <= c < width && 0 <= r && precedes(c, r, col, row) ==> #[trigger] pixel_at(
                data + bytes_of(p),
                width,
                c,
                r,
            ) == pixel_at(data, width, c, r),
{
    let more = data + bytes_of(p);
    let k = 4 * (row * width + col);
    assert(more[k] == p.r && more[k + 1] == p.g && more[k + 2] == p.b && more[k + 3] == p.a);
    assert forall|c: int, r: int|
        0 <= c < width && 0 <= r && precedes(c, r, col, row) implies #[trigger] pixel_at(
        more,
        width,
        c,
        r,
    ) == pixel_at(data, width, c, r) by {
        order_of_pixels(width, c, r, col, row);
    }
}

/// A region held within a picture.
pub open spec fn clipped(roi: RoiDef, width: u32, height: u32) -> RoiDef {
    let x = least(roi.x as int, if width == 0 { 0 } else { width - 1 });
    let y = least(roi.y as int, if height == 0 { 0 } else { height - 1 });
    RoiDef {
        x: x as u32,
        y: y as u32,
        w: least(roi.w as int, width - x) as u32,
        h: least(roi.h as int, height - y) as u32,
    }
}

/// The smaller of two numbers.
pub open spec fn least(a: int, b: int) -> int {
    if a <= b {
        a
    } else {
        b
    }
}

fn smaller(a: u32, b: u32) -> (r: u32)
    ensures
        r == least(a as int, b as int),
{
    if a <= b {
        a
    } else {
        b
    }
}

/// Holds a region within a picture.
pub fn clip(roi: RoiDef, width: u32, height: u32) -> (r: RoiDef)
    ensures
        r == clipped(roi, width, height),
        r.x + r.w <= width,
        r.y + r.h <= height,
{
    let x: u32 = smaller(roi.x, if width == 0 { 0 } else { width - 1 });
    let y: u32 = smaller(roi.y, if height == 0 { 0 } else { height - 1 });
    RoiDef { x, y, w: smaller(roi.w, width - x), h: smaller(roi.h, height - y) }
}

/// The pixel of a picture, and a blank one where the picture has no bytes for it.
pub open spec fn seen(frame: &Frame, col: int, row: int) -> Pixel {
    if 4 * (row * frame.width + col) + 3 < frame.data@.len() {
        frame.at(col, row)
    } else {
        blank()
    }
}

fn look(frame: &Frame, col: u32, row: u32) -> (r: Pixel)
    requires
        frame.width <= SIDE_LIMIT,
        col < frame.width,
        row <= SIDE_LIMIT,
    ensures
        r == seen(frame, col as int, row as int),
{
    proof {
        let w = frame.width as int;
        assert(0 <= row * w <= 0x1_0000_0000) by (nonlinear_arith)
            requires
                0 <= w <= 0x1_0000,
                0 <= row <= 0x1_0000,
        ;
    }
    let k: u64 = 4 * (row as u64 * frame.width as u64 + col as u64);
    if k + 3 < frame.data.len() as u64 {
        let i: usize = k as usize;
        Pixel {
            r: frame.data[i],
            g: frame.data[i + 1],
            b: frame.data[i + 2],
            a: frame.data[i + 3],
        }
    } else {
        Pixel { r: 0, g: 0, b: 0, a: 0 }
    }
}

/// Whether a picture is the given region of another.
pub open spec fn is_cut(cut: &Frame, frame: &Frame, roi: RoiDef) -> bool {
    &&& cut.wf()
    &&& cut.width == roi.w
    &&& cut.height == roi.h
    &&& forall|col: int, row: int|
        0 <= col < roi.w && 0 <= row < roi.h ==> #[trigger] cut.at(col, row) == seen(
            frame,
            roi.x + col,
            roi.y + row,
        )
}

/// Cuts a region out of a picture.
pub fn cut(frame: &Frame, roi: RoiDef) -> (r: Frame)
    requires
        frame.width <= SIDE_LIMIT,
        frame.height <= SIDE_LIMIT,
        roi.x + roi.w <= frame.width,
        roi.y + roi.h <= frame.height,
    ensures
        is_cut(&r, frame, roi),
{
    let mut data: Vec<u8> = Vec::new();
    let mut row: u32 = 0;
    assert(0 * roi.w == 0) by (nonlinear_arith);
    while row < roi.h
        invariant
            row <= roi.h,
            frame.width <= SIDE_LIMIT,
            frame.height <= SIDE_LIMIT,
            roi.x + roi.w <= frame.width,
            roi.y + roi.h <= frame.height,
            data@.len() == 4 * (row * roi.w),
            forall|c: int, r: int|
                0 <= c < roi.w && 0 <= r < row ==> #[trigger] pixel_at(
                    data@,
                    roi.w as int,
                    c,
                    r,
                ) == seen(frame, roi.x + c, roi.y + r),
        decreases roi.h - row,
    {
        let mut col: u32 = 0;
        while col < roi.w
            invariant
                col <= roi.w,
                row < roi.h,
                frame.width <= SIDE_LIMIT,
                frame.height <= SIDE_LIMIT,
                roi.x + roi.w <= frame.width,
                roi.y + roi.h <= frame.height,
                data@.len() == 4 * (row * roi.w + col),
                forall|c: int, r: int|
                    0 <= c < roi.w && 0 <= r && precedes(c, r, col as int, row as int)
                        ==> #[trigger] pixel_at(data@, roi.w as int, c, r) == seen(
                        frame,
                        roi.x + c,
                        roi.y + r,
                    ),
            decreases roi.w - col,
        {
            let p = look(frame, roi.x + col, roi.y + row);
            let ghost before = data@;
            push_pixel(&mut data, p);
            proof {
                pixels_stay(before, p, roi.w as int, col as int, row as int);
            }
            col = col + 1;
        }
        proof {
            next_row(roi.w as int, row as int);
        }
        row = row + 1;
    }
    Frame { width: roi.w, height: roi.h, data }
}

/// Whether a picture is another one with each pixel `scale` times as wide and high.
pub open spec fn is_enlarged(big: &Frame, small: &Frame, scale: u32) -> bool {
    &&& big.wf()
    &&& big.width == small.width * scale
    &&& big.height == small.height * scale
    &&& forall|col: int, row: int|
        0 <= col < big.width && 0 <= row < big.height ==> #[trigger] big.at(col, row) == small.at(
            col / (scale as int),
            row / (scale as int),
        )
}

proof fn shrinks(v: int, side: int, scale: int)
    requires
        0 <= v < side * scale,
        scale > 0,
    ensures
        0 <= v / scale < side,
{
    assert(0 <= v / scale < side) by (nonlinear_arith)
        requires
            0 <= v < side * scale,
            scale > 0,
    ;
}

/// Enlarges a picture without smoothing.
pub fn enlarge(small: &Frame, scale: u32) -> (r: Frame)
    requires
        small.wf(),
        scale > 0,
        small.width * scale <= SIDE_LIMIT,
        small.height * scale <= SIDE_LIMIT,
    ensures
        is_enlarged(&r, small, scale),
{
    let width: u32 = small.width * scale;
    let height: u32 = small.height * scale;
    let mut data: Vec<u8> = Vec::new();
    let mut row: u32 = 0;
    assert(0 * width == 0) by (nonlinear_arith);
    while row < height
        invariant
            row <= height,
            small.wf(),
            scale > 0,
            width == small.width * scale,
            height == small.height * scale,
            width <= SIDE_LIMIT,
            height <= SIDE_LIMIT,
            data@.len() == 4 * (row * width),
            forall|c: int, r: int|
                0 <= c < width && 0 <= r < row ==> #[trigger] pixel_at(data@, width as int, c, r)
                    == small.at(c / (scale as int), r / (scale as int)),
        decreases height - row,
    {
        let mut col: u32 = 0;
        while col < width
            invariant
                col <= width,
                row < height,
                small.wf(),
                scale > 0,
                width == small.width * scale,
                height == small.height * scale,
                width <= SIDE_LIMIT,
                height <= SIDE_LIMIT,
                data@.len() == 4 * (row * width + col),
                forall|c: int, r: int|
                    0 <= c < width && 0 <= r && precedes(c, r, col as int, row as int)
                        ==> #[trigger] pixel_at(data@, width as int, c, r) == small.at(
                        c / (scale as int),
                        r / (scale as int),
                    ),
            decreases width - col,
        {
            proof {
                shrinks(col as int, small.width as int, scale as int);
                shrinks(row as int, small.height as int, scale as int);
                present(small, col as int / (scale as int), row as int / (scale as int));
            }
            let p = look(small, col / scale, row / scale);
            let ghost before = data@;
            push_pixel(&mut data, p);
            proof {
                pixels_stay(before, p, width as int, col as int, row as int);
            }
            col = col + 1;
        }
        proof {
            next_row(width as int, row as int);
        }
        row = row + 1;
    }
    Frame { width, height, data }
}

/// A whole picture has bytes for every pixel.
proof fn present(frame: &Frame, col: int, row: int)
    requires
        frame.wf(),
        0 <= col < frame.width,
        0 <= row < frame.height,
    ensures
        seen(frame, col, row) == frame.at(col, row),
{
    let w = frame.width as int;
    let h = frame.height as int;
    assert(row * w + col < h * w && 0 <= row * w + col) by (nonlinear_arith)
        requires
            0 <= col < w,
            0 <= row < h,
    ;
}

/// A pixel of the loot view: a sparkle is red, every other pixel half as bright.
pub open spec fn loot_pixel(p: Pixel, sparkle: bool) -> Pixel {
    if sparkle {
        Pixel { r: 255, g: 0, b: 0, a: 255 }
    } else {
        Pixel { r: p.r / 2, g: p.g / 2, b: p.b / 2, a: 255 }
    }
}

/// The loot view of a pixel of a picture; blank where the picture has no bytes for it.
pub open spec fn loot_seen(frame: &Frame, col: int, row: int, sparkle: bool) -> Pixel {
    if 4 * (row * frame.width + col) + 3 < frame.data@.len() {
        loot_pixel(frame.at(col, row), sparkle)
    } else {
        blank()
    }
}

fn look_for_loot(frame: &Frame, col: u32, row: u32, sparkle: bool) -> (r: Pixel)
    requires
        frame.width <= SIDE_LIMIT,
        col < frame.width,
        row <= SIDE_LIMIT,
    ensures
        r == loot_seen(frame, col as int, row as int, sparkle),
{
    proof {
        let w = frame.width as int;
        assert(0 <= row * w <= 0x1_0000_0000) by (nonlinear_arith)
            requires
                0 <= w <= 0x1_0000,
                0 <= row <= 0x1_0000,
        ;
    }
    let k: u64 = 4 * (row as u64 * frame.width as u64 + col as u64);
    if k + 3 < frame.data.len() as u64 {
        if sparkle {
            Pixel { r: 255, g: 0, b: 0, a: 255 }
        } else {
            let p = look(frame, col, row);
            Pixel { r: p.r / 2, g: p.g / 2, b: p.b / 2, a: 255 }
        }
    } else {
        Pixel { r: 0, g: 0, b: 0, a: 0 }
    }
}

/// Whether a picture is the loot view of a region of another, in which `sparkles` marks the
/// sparkling pixels, row by row.
pub open spec fn is_loot_view(
    view: &Frame,
    frame: &Frame,
    roi: RoiDef,
    sparkles: Seq<bool>,
) -> bool {
    &&& view.wf()
    &&& view.width == roi.w
    &&& view.height == roi.h
    &&& forall|col: int, row: int|
        0 <= col < roi.w && 0 <= row < roi.h ==> #[trigger] view.at(col, row) == loot_seen(
            frame,
            roi.x + col,
            roi.y + row,
            sparkles[row * roi.w + col],
        )
}

/// The loot view of a region of a picture.
pub fn loot_view(frame: &Frame, roi: RoiDef, sparkles: &[bool]) -> (r: Frame)
    requires
        frame.width <= SIDE_LIMIT,
        frame.height <= SIDE_LIMIT,
        roi.x + roi.w <= frame.width,
        roi.y + roi.h <= frame.height,
        sparkles@.len() == roi.h * roi.w,
    ensures
        is_loot_view(&r, frame, roi, sparkles@),
{
    let mut data: Vec<u8> = Vec::new();
    let mut row: u32 = 0;
    let mut k: usize = 0;
    assert(0 * roi.w == 0) by (nonlinear_arith);
    while row < roi.h
        invariant
            row <= roi.h,
            frame.width <= SIDE_LIMIT,
            frame.height <= SIDE_LIMIT,
            roi.x + roi.w <= frame.width,
            roi.y + roi.h <= frame.height,
            sparkles@.len() == roi.h * roi.w,
            k == row * roi.w,
            data@.len() == 4 * (row * roi.w),
            forall|c: int, r: int|
                0 <= c < roi.w && 0 <= r < row ==> #[trigger] pixel_at(
                    data@,
                    roi.w as int,
                    c,
                    r,
                ) == loot_seen(frame, roi.x + c, roi.y + r, sparkles@[r * roi.w + c]),
        decreases roi.h - row,
    {
        let mut col: u32 = 0;
        while col < roi.w
            invariant
                col <= roi.w,
                row < roi.h,
                frame.width <= SIDE_LIMIT,
                frame.height <= SIDE_LIMIT,
                roi.x + roi.w <= frame.width,
                roi.y + roi.h <= frame.height,
                sparkles@.len() == roi.h * roi.w,
                k == row * roi.w + col,
                data@.len() == 4 * (row * roi.w + col),
                forall|c: int, r: int|
                    0 <= c < roi.w && 0 <= r && precedes(c, r, col as int, row as int)
                        ==> #[trigger] pixel_at(data@, roi.w as int, c, r) == loot_seen(
                        frame,
                        roi.x + c,
                        roi.y + r,
                        sparkles@[r * roi.w + c],
                    ),
            decreases roi.w - col,
        {
            proof {
                order_of_pixels(roi.w as int, col as int, row as int, 0, roi.h as int);
            }
            let p = look_for_loot(frame, roi.x + col, roi.y + row, sparkles[k]);
            let ghost before = data@;
            push_pixel(&mut data, p);
            proof {
                pixels_stay(before, p, roi.w as int, col as int, row as int);
            }
            col = col + 1;
            k = k + 1;
        }
        proof {
            next_row(roi.w as int, row as int);
        }
        row = row + 1;
    }
    Frame { width: roi.w, height: roi.h, data }
}

/// A region is cut down to the part of it that lies in the picture: it begins at the same place,
/// unless that lies beyond the last column or row, and ends at the same place, unless that lies
/// beyond the edge. A region that lies in the picture stays as it is.
pub proof fn a_region_is_cut_down_to_the_picture(roi: RoiDef, width: u32, height: u32)
    requires
        width > 0,
        height > 0,
    ensures
        roi.x < width ==> clipped(roi, width, height).x == roi.x,
        roi.y < height ==> clipped(roi, width, height).y == roi.y,
        roi.x >= width ==> clipped(roi, width, height).x == width - 1,
        roi.y >= height ==> clipped(roi, width, height).y == height - 1,
        roi.x + roi.w <= width && roi.y + roi.h <= height && roi.x < width && roi.y < height
            ==> clipped(roi, width, height) == roi,
        roi.x < width && roi.x + roi.w > width ==> clipped(roi, width, height).x + clipped(
            roi,
            width,
            height,
        ).w == width,
        roi.y < height && roi.y + roi.h > height ==> clipped(roi, width, height).y + clipped(
            roi,
            width,
            height,
        ).h == height,
{
}

/// The pixel in a column and a row takes four bytes, red first, and the rows follow each other.
pub proof fn a_pixel_takes_four_bytes(data: Seq<u8>, width: int, col: int, row: int)
    ensures
        pixel_at(data, width, col, row).r == data[4 * (row * width + col)],
        pixel_at(data, width, col, row).g == data[4 * (row * width + col) + 1],
        pixel_at(data, width, col, row).b == data[4 * (row * width + col) + 2],
        pixel_at(data, width, col, row).a == data[4 * (row * width + col) + 3],
{
}

/// Where loot sparkles the view is red; elsewhere it shows the picture at half its brightness, and
/// nothing where the picture has no data.
pub proof fn loot_is_shown_in_red(frame: Frame, col: int, row: int)
    requires
        4 * (row * frame.width + col) + 3 < frame.data@.len(),
    ensures
        loot_seen(&frame, col, row, true) == (Pixel { r: 255, g: 0, b: 0, a: 255 }),
        ({
            let p = loot_seen(&frame, col, row, false);
            let q = frame.at(col, row);
            &&& 2 * p.r <= q.r <= 2 * p.r + 1
            &&& 2 * p.g <= q.g <= 2 * p.g + 1
            &&& 2 * p.b <= q.b <= 2 * p.b + 1
            &&& p.a == 255
        }),
{
}

/// Each pixel of a picture becomes a square of pixels of the enlarged one.
pub proof fn each_pixel_becomes_a_square(
    big: Frame,
    small: Frame,
    scale: u32,
    col: int,
    row: int,
    dx: int,
    dy: int,
)
    requires
        is_enlarged(&big, &small, scale),
        scale > 0,
        0 <= col < small.width,
        0 <= row < small.height,
        0 <= dx < scale,
        0 <= dy < scale,
    ensures
        big.at(col * scale + dx, row * scale + dy) == small.at(col, row),
{
    let s = scale as int;
    assert((col * s + dx) / s == col && 0 <= col * s + dx < small.width * s) by (nonlinear_arith)
        requires
            0 <= dx < s,
            0 <= col < small.width,
    ;
    assert((row * s + dy) / s == row && 0 <= row * s + dy < small.height * s) by (nonlinear_arith)
        requires
            0 <= dy < s,
            0 <= row < small.height,
    ;
}

/// A picture that is cut out shows in each column and row what stands as far right and down of the
/// region's corner, and nothing where the picture has no data.
pub proof fn a_cut_shows_its_region(cut: Frame, frame: Frame, roi: RoiDef, col: int, row: int)
    requires
        is_cut(&cut, &frame, roi),
        0 <= col < roi.w,
        0 <= row < roi.h,
    ensures
        4 * ((roi.y + row) * frame.width + (roi.x + col)) + 3 < frame.data@.len() ==> cut.at(
            col,
            row,
        ) == frame.at(roi.x + col, roi.y + row),
        4 * ((roi.y + row) * frame.width + (roi.x + col)) + 3 >= frame.data@.len() ==> cut.at(
            col,
            row,
        ) == (Pixel { r: 0, g: 0, b: 0, a: 0 }),
{
}

/// A view of loot shows in each column and row the pixel as far right and down of the region's
/// corner, in red where the mark for that column and row is set.
pub proof fn a_loot_view_shows_its_marks(
    view: Frame,
    frame: Frame,
    roi: RoiDef,
    sparkles: Seq<bool>,
    col: int,
    row: int,
)
    requires
        is_loot_view(&view, &frame, roi, sparkles),
        0 <= col < roi.w,
        0 <= row < roi.h,
        4 * ((roi.y + row) * frame.width + (roi.x + col)) + 3 < frame.data@.len(),
    ensures
        view.width == roi.w,
        view.height == roi.h,
        sparkles[row * roi.w + col] ==> view.at(col, row) == (Pixel { r: 255, g: 0, b: 0, a: 255 }),
        !sparkles[row * roi.w + col] ==> view.at(col, row).r == frame.at(roi.x + col, roi.y + row).r
            / 2 && view.at(col, row).g == frame.at(roi.x + col, roi.y + row).g / 2 && view.at(
            col,
            row,
        ).b == frame.at(roi.x + col, roi.y + row).b / 2,
{
}

} // verus!
