//! Finding a template on the screen, and cutting new templates out of it.

use vstd::prelude::*;
use vstd::string::*;

use crate::remote::drawing::READABLE_LIMIT;
use crate::remote::picture::{
    next_row, order_of_pixels, precedes, Frame, GrayFrame, RoiDef, SIDE_LIMIT,
};
use crate::text::{decimal, push_decimal, push_signed, signed};

verus! {

/// The width and height of a template if none is asked for.
pub const DEFAULT_TEMPLATE_SIDE: u32 = 34;

/// The brightness of a colour.
pub open spec fn luma(r: u8, g: u8, b: u8) -> u8 {
    ((299 * r + 587 * g + 114 * b) / 1000) as u8
}

/// The first byte of a pixel of a region, counted over the whole picture.
pub open spec fn place(frame: &Frame, roi: RoiDef, col: int, row: int) -> int {
    4 * ((roi.y + row) * frame.width + (roi.x + col))
}

/// Whether a picture has the colours of every pixel of a region.
pub open spec fn covers(frame: &Frame, roi: RoiDef) -> bool {
    roi.w == 0 || roi.h == 0 || place(frame, roi, roi.w - 1, roi.h - 1) + 2 < frame.data@.len()
}

/// The pixel in a column and a row of a gray picture.
pub open spec fn gray_at(data: Seq<u8>, width: int, col: int, row: int) -> u8 {
    data[row * width + col]
}

/// The brightness of a pixel of a region.
pub open spec fn luma_at(frame: &Frame, roi: RoiDef, col: int, row: int) -> u8 {
    let k = place(frame, roi, col, row);
    luma(frame.data@[k], frame.data@[k + 1], frame.data@[k + 2])
}

/// Whether a picture shows the brightness of a region of another.
pub open spec fn is_gray_of(gray: &GrayFrame, frame: &Frame, roi: RoiDef) -> bool {
    &&& gray.width == roi.w
    &&& gray.height == roi.h
    &&& gray.data@.len() == roi.h * roi.w
    &&& forall|col: int, row: int|
        0 <= col < roi.w && 0 <= row < roi.h ==> #[trigger] gray_at(
            gray.data@,
            roi.w as int,
            col,
            row,
        ) == luma_at(frame, roi, col, row)
}

proof fn places_grow(frame: &Frame, roi: RoiDef, col: int, row: int)
    requires
        0 <= col < roi.w,
        0 <= row < roi.h,
    ensures
        0 <= place(frame, roi, col, row) <= place(frame, roi, roi.w - 1, roi.h - 1),
{
    let w = frame.width as int;
    let y = roi.y as int;
    let h = roi.h as int;
    assert(0 <= (y + row) * w <= (y + (h - 1)) * w) by (nonlinear_arith)
        requires
            0 <= y,
            0 <= row < h,
            0 <= w,
    ;
}

proof fn gray_stays(data: Seq<u8>, v: u8, width: int, col: int, row: int)
    requires
        0 <= col < width,
        0 <= row,
        data.len() == row * width + col,
    ensures
        gray_at(data.push(v), width, col, row) == v,
        forall|c: int, r: int|
            0 <= c < width && 0 <= r && precedes(c, r, col, row) ==> #[trigger] gray_at(
                data.push(v),
                width,
                c,
                r,
            ) == gray_at(data, width, c, r),
{
    assert forall|c: int, r: int|
        0 <= c < width && 0 <= r && precedes(c, r, col, row) implies #[trigger] gray_at(
        data.push(v),
        width,
        c,
        r,
    ) == gray_at(data, width, c, r) by {
        order_of_pixels(width, c, r, col, row);
    }
}

/// The brightness of a region of a picture; `None` if the picture does not hold all of it.
pub fn gray_of(frame: &Frame, roi: RoiDef) -> (r: Option<GrayFrame>)
    requires
        frame.width <= SIDE_LIMIT,
        roi.x + roi.w <= u32::MAX,
        roi.y + roi.h <= u32::MAX,
    ensures
        (r is Some) == covers(frame, roi),
        r matches Some(gray) ==> is_gray_of(&gray, frame, roi),
{
    let mut data: Vec<u8> = Vec::new();
    let mut row: u32 = 0;
    assert(0 * roi.w == 0) by (nonlinear_arith);
    while row < roi.h
        invariant
            row <= roi.h,
            frame.width <= SIDE_LIMIT,
            roi.x + roi.w <= u32::MAX,
            roi.y + roi.h <= u32::MAX,
            data@.len() == row * roi.w,
            roi.w > 0 && row > 0 ==> place(frame, roi, roi.w - 1, row - 1) + 2
                < frame.data@.len(),
            forall|c: int, r: int|
                0 <= c < roi.w && 0 <= r < row ==> #[trigger] gray_at(data@, roi.w as int, c, r)
                    == luma_at(frame, roi, c, r),
        decreases roi.h - row,
    {
        let mut col: u32 = 0;
        while col < roi.w
            invariant
                col <= roi.w,
                row < roi.h,
                frame.width <= SIDE_LIMIT,
                roi.x + roi.w <= u32::MAX,
                roi.y + roi.h <= u32::MAX,
                data@.len() == row * roi.w + col,
                col > 0 ==> place(frame, roi, col - 1, row as int) + 2 < frame.data@.len(),
                forall|c: int, r: int|
                    0 <= c < roi.w && 0 <= r && precedes(c, r, col as int, row as int)
                        ==> #[trigger] gray_at(data@, roi.w as int, c, r) == luma_at(
                        frame,
                        roi,
                        c,
                        r,
                    ),
            decreases roi.w - col,
        {
            proof {
                places_grow(frame, roi, col as int, row as int);
                let w = frame.width as int;
                let y = roi.y + row;
                assert(0 <= y * w <= 0x1_0000_0000_0000) by (nonlinear_arith)
                    requires
                        0 <= w <= 0x1_0000,
                        0 <= y <= 0x1_0000_0000,
                ;
            }
            let k: u64 = 4 * ((roi.y + row) as u64 * frame.width as u64 + (roi.x + col) as u64);
            assert(k == place(frame, roi, col as int, row as int));
            if k + 2 >= frame.data.len() as u64 {
                return None;
            }
            let i: usize = k as usize;
            let v: u32 = (299 * frame.data[i] as u32 + 587 * frame.data[i + 1] as u32 + 114
                * frame.data[i + 2] as u32) / 1000;
            let ghost before = data@;
            data.push(v as u8);
            proof {
                gray_stays(before, v as u8, roi.w as int, col as int, row as int);
            }
            col = col + 1;
        }
        proof {
            next_row(roi.w as int, row as int);
        }
        row = row + 1;
    }
    Some(GrayFrame { width: roi.w, height: roi.h, data })
}

/// The region in which a template is looked for: its own, if that is asked for and there is
/// one, and else the whole picture.
pub fn search_area(use_roi: bool, roi: Option<RoiDef>, width: u32, height: u32) -> (r: RoiDef)
    ensures
        r == if use_roi && roi is Some {
            roi->Some_0
        } else {
            RoiDef { x: 0, y: 0, w: width, h: height }
        },
{
    if use_roi {
        if let Some(roi) = roi {
            return roi;
        }
    }
    RoiDef { x: 0, y: 0, w: width, h: height }
}

/// What is said of a region that is smaller than the template.
pub open spec fn too_small_text(w: u32, h: u32, template_w: u32, template_h: u32) -> Seq<char> {
    "search_area ("@ + decimal(w as nat) + "x"@ + decimal(h as nat) + ") < template ("@ + decimal(
        template_w as nat,
    ) + "x"@ + decimal(template_h as nat) + ")"@
}

/// `None` if a template fits into a region, and else what is said of it.
pub fn check_area(area: RoiDef, template_w: u32, template_h: u32) -> (r: Option<String>)
    ensures
        (r is Some) == (area.w < template_w || area.h < template_h),
        r matches Some(text) ==> text@ == too_small_text(area.w, area.h, template_w, template_h),
{
    if area.w >= template_w && area.h >= template_h {
        return None;
    }
    let mut s = "search_area (".to_owned();
    push_decimal(&mut s, area.w as u64);
    s.append("x");
    push_decimal(&mut s, area.h as u64);
    s.append(") < template (");
    push_decimal(&mut s, template_w as u64);
    s.append("x");
    push_decimal(&mut s, template_h as u64);
    s.append(")");
    assert(s@ =~= too_small_text(area.w, area.h, template_w, template_h));
    Some(s)
}

/// The bits of the largest score at which a template counts as found.
pub const MATCH_THRESHOLD_BITS: u32 = 0x3E4C_CCCD;

/// Where a template fits best. A score is given by the bits of a single precision number that
/// is not negative, which are ordered as the numbers are; the least score is the best.
#[derive(Clone, Copy, Debug, PartialEq, Eq, Structural)]
pub struct TemplateMatch {
    pub score_bits: u32,
    pub top_left_x: u32,
    pub top_left_y: u32,
    pub center_x: u32,
    pub center_y: u32,
    pub passed_threshold: bool,
}

/// Whether a score is the least, and the first of several that are.
pub open spec fn is_first_least(scores: Seq<u32>, i: int) -> bool {
    &&& 0 <= i < scores.len()
    &&& forall|j: int| 0 <= j < scores.len() ==> scores[i] <= scores[j]
    &&& forall|j: int| 0 <= j < i ==> scores[i] < scores[j]
}

/// The place of the template whose score is the `i`th, counted row by row.
pub open spec fn match_at(
    scores: Seq<u32>,
    i: int,
    columns: u32,
    area: RoiDef,
    template_w: u32,
    template_h: u32,
) -> TemplateMatch {
    let x = area.x + i % (columns as int);
    let y = area.y + i / (columns as int);
    TemplateMatch {
        score_bits: scores[i],
        top_left_x: x as u32,
        top_left_y: y as u32,
        center_x: (x + template_w / 2) as u32,
        center_y: (y + template_h / 2) as u32,
        passed_threshold: scores[i] <= MATCH_THRESHOLD_BITS,
    }
}

/// Where a template fits best, given its score at each place of a region, row by row.
pub fn best_match(
    scores: &[u32],
    area: RoiDef,
    template_w: u32,
    template_h: u32,
) -> (r: TemplateMatch)
    requires
        area.x + area.w <= u32::MAX,
        area.y + area.h <= u32::MAX,
        0 < template_w <= area.w <= SIDE_LIMIT,
        0 < template_h <= area.h <= SIDE_LIMIT,
        scores@.len() == (area.h - template_h + 1) * (area.w - template_w + 1),
    ensures
        exists|i: int| #[trigger]
            is_first_least(scores@, i) && r == match_at(
                scores@,
                i,
                (area.w - template_w + 1) as u32,
                area,
                template_w,
                template_h,
            ),
{
    let columns: u32 = area.w - template_w + 1;
    let ghost rows = area.h - template_h + 1;
    proof {
        assert(0 < rows * columns <= 0x2_0000_0000) by (nonlinear_arith)
            requires
                0 < rows <= 0x1_0000,
                0 < columns <= 0x1_0000,
        ;
    }
    let mut best: usize = 0;
    let mut i: usize = 1;
    while i < scores.len()
        invariant
            1 <= i <= scores@.len(),
            best < i,
            forall|j: int| 0 <= j < i ==> scores@[best as int] <= scores@[j],
            forall|j: int| 0 <= j < best ==> scores@[best as int] < scores@[j],
        decreases scores@.len() - i,
    {
        if scores[i] < scores[best] {
            best = i;
        }
        i = i + 1;
    }
    proof {
        let b = best as int;
        let c = columns as int;
        assert(0 <= b / c < rows && 0 <= b % c < c) by (nonlinear_arith)
            requires
                0 <= b < rows * c,
                0 < c,
        ;
    }
    let local_x: u32 = (best % columns as usize) as u32;
    let local_y: u32 = (best / columns as usize) as u32;
    let x: u32 = area.x + local_x;
    let y: u32 = area.y + local_y;
    let score_bits: u32 = scores[best];
    assert(is_first_least(scores@, best as int));
    TemplateMatch {
        score_bits,
        top_left_x: x,
        top_left_y: y,
        center_x: x + template_w / 2,
        center_y: y + template_h / 2,
        passed_threshold: score_bits <= MATCH_THRESHOLD_BITS,
    }
}

/// The corner of a region of a given size round a point.
pub open spec fn corner(center: i32, side: u32) -> int {
    center - side / 2
}

/// Whether a region round a point lies within a picture.
pub open spec fn lies_within(
    cx: i32,
    cy: i32,
    w: u32,
    h: u32,
    width: u32,
    height: u32,
) -> bool {
    &&& corner(cx, w) >= 0
    &&& corner(cy, h) >= 0
    &&& corner(cx, w) + w <= width
    &&& corner(cy, h) + h <= height
}

/// What is said of a region that does not lie within a picture.
pub open spec fn outside_text(
    cx: i32,
    cy: i32,
    w: u32,
    h: u32,
    width: u32,
    height: u32,
) -> Seq<char> {
    "Region ("@ + signed(corner(cx, w)) + ","@ + signed(corner(cy, h)) + ","@ + decimal(w as nat)
        + ","@ + decimal(h as nat) + ") fuera del frame "@ + decimal(width as nat) + "x"@ + decimal(
        height as nat,
    )
}

/// The region of a given size round a point, if it lies within a picture, and else what is said
/// of it.
pub fn template_region(cx: i32, cy: i32, w: u32, h: u32, width: u32, height: u32) -> (r: Result<
    RoiDef,
    String,
>)
    ensures
        (r is Ok) == lies_within(cx, cy, w, h, width, height),
        r matches Ok(roi) ==> roi.x == corner(cx, w) && roi.y == corner(cy, h) && roi.w == w && roi.h
            == h,
        r matches Err(text) ==> text@ == outside_text(cx, cy, w, h, width, height),
{
    let x: i64 = cx as i64 - (w / 2) as i64;
    let y: i64 = cy as i64 - (h / 2) as i64;
    if x >= 0 && y >= 0 && x + w as i64 <= width as i64 && y + h as i64 <= height as i64 {
        return Ok(RoiDef { x: x as u32, y: y as u32, w, h });
    }
    let mut s = "Region (".to_owned();
    push_signed(&mut s, x);
    s.append(",");
    push_signed(&mut s, y);
    s.append(",");
    push_decimal(&mut s, w as u64);
    s.append(",");
    push_decimal(&mut s, h as u64);
    s.append(") fuera del frame ");
    push_decimal(&mut s, width as u64);
    s.append("x");
    push_decimal(&mut s, height as u64);
    assert(s@ =~= outside_text(cx, cy, w, h, width, height));
    Err(s)
}

/// The sum of bytes.
pub open spec fn byte_sum(data: Seq<u8>) -> int
    decreases data.len(),
{
    if data.len() == 0 {
        0
    } else {
        byte_sum(data.drop_last()) + data.last()
    }
}

/// The sum of the brightness of all pixels.
pub fn luma_sum(gray: &GrayFrame) -> (r: u64)
    requires
        gray.data@.len() <= 0x1_0000_0000,
    ensures
        r == byte_sum(gray.data@),
{
    let mut sum: u64 = 0;
    let mut i: usize = 0;
    while i < gray.data.len()
        invariant
            i <= gray.data@.len() <= 0x1_0000_0000,
            sum == byte_sum(gray.data@.take(i as int)),
            sum <= 255 * i,
        decreases gray.data@.len() - i,
    {
        assert(gray.data@.take(i + 1).drop_last() =~= gray.data@.take(i as int));
        sum = sum + gray.data[i] as u64;
        i = i + 1;
    }
    assert(gray.data@.take(i as int) =~= gray.data@);
    sum
}

/// The brightness of what a PNG file shows: its width, its height, and its pixels, row by row; or
/// why it cannot be read.
pub uninterp spec fn png_gray(png: Seq<u8>) -> Result<(u32, u32, Seq<u8>), Seq<char>>;

/// `image::load_from_memory_with_format` with `ImageFormat::Png`, then
/// `DynamicImage::to_luma8`: what the file shows, or why it cannot be read. There is a byte for
/// each pixel, and no picture is without pixels.
#[verifier::external_body]
fn read_gray_png(png: &[u8]) -> (r: Result<(u32, u32, Vec<u8>), String>)
    ensures
        (r is Ok) == (png_gray(png@) is Ok),
        r is Ok ==> (r->Ok_0.0, r->Ok_0.1, r->Ok_0.2@) == png_gray(png@)->Ok_0,
        r is Err ==> r->Err_0@ == png_gray(png@)->Err_0,
        r is Ok ==> r->Ok_0.0 > 0 && r->Ok_0.1 > 0,
        r is Ok ==> r->Ok_0.2@.len() == r->Ok_0.1 * r->Ok_0.0,
{
    match image::load_from_memory_with_format(png, image::ImageFormat::Png) {
        Ok(image) => {
            let gray = image.to_luma8();
            Ok((gray.width(), gray.height(), gray.into_raw()))
        },
        Err(e) => Err(e.to_string()),
    }
}

/// A PNG file of a gray picture, or why there is none.
pub uninterp spec fn png_gray_file(width: u32, height: u32, data: Seq<u8>) -> Result<
    Seq<u8>,
    Seq<char>,
>;

/// `image::GrayImage::write_to` with `ImageFormat::Png`. The format loses nothing: what is read
/// back is the picture that was written, as long as it is small enough to be read back.
#[verifier::external_body]
fn write_gray_png(gray: &GrayFrame) -> (r: Result<Vec<u8>, String>)
    requires
        gray.data@.len() == gray.height * gray.width,
        gray.width <= SIDE_LIMIT,
        gray.height <= SIDE_LIMIT,
    ensures
        (r is Ok) == (png_gray_file(gray.width, gray.height, gray.data@) is Ok),
        r is Ok ==> r->Ok_0@ == png_gray_file(gray.width, gray.height, gray.data@)->Ok_0,
        r is Err ==> r->Err_0@ == png_gray_file(gray.width, gray.height, gray.data@)->Err_0,
        r is Ok && gray.data@.len() <= READABLE_LIMIT ==> png_gray(r->Ok_0@) is Ok,
        r is Ok && gray.data@.len() <= READABLE_LIMIT ==> png_gray(r->Ok_0@)->Ok_0 == (
            gray.width,
            gray.height,
            gray.data@,
        ),
{
    let mut out = std::io::Cursor::new(Vec::new());
    match image::GrayImage::from_raw(gray.width, gray.height, gray.data.clone()) {
        Some(canvas) => match canvas.write_to(&mut out, image::ImageFormat::Png) {
            Ok(()) => Ok(out.into_inner()),
            Err(e) => Err(e.to_string()),
        },
        None => Err(String::new()),
    }
}

/// The normalized sum of squared differences of a template to each part of a gray picture that
/// has its size, row by row; each by the bits of the number.
pub uninterp spec fn match_scores(
    width: u32,
    height: u32,
    data: Seq<u8>,
    template_w: u32,
    template_h: u32,
    template: Seq<u8>,
) -> Seq<u32>;

/// `imageproc::template_matching::match_template` with
/// `MatchTemplateMethod::SumOfSquaredErrorsNormalized`: a score for each place at which the
/// template lies within the picture.
#[verifier::external_body]
fn score_places(picture: &GrayFrame, template: &GrayFrame) -> (r: Vec<u32>)
    requires
        picture.data@.len() == picture.height * picture.width,
        template.data@.len() == template.height * template.width,
        0 < template.width <= picture.width <= SIDE_LIMIT,
        0 < template.height <= picture.height <= SIDE_LIMIT,
    ensures
        r@ == match_scores(
            picture.width,
            picture.height,
            picture.data@,
            template.width,
            template.height,
            template.data@,
        ),
        r@.len() == (picture.height - template.height + 1) * (picture.width - template.width + 1),
{
    let method = imageproc::template_matching::MatchTemplateMethod::SumOfSquaredErrorsNormalized;
    let picture = image::GrayImage::from_raw(picture.width, picture.height, picture.data.clone());
    let template = image::GrayImage::from_raw(template.width, template.height, template.data.clone());
    match (picture, template) {
        (Some(p), Some(t)) => imageproc::template_matching::match_template(&p, &t, method)
            .iter()
            .map(|score| score.to_bits())
            .collect(),
        _ => Vec::new(),
    }
}

/// Where a template was looked for, and where it fits best.
#[derive(Clone, Copy, Debug, PartialEq, Eq, Structural)]
pub struct MatchNow {
    pub area: RoiDef,
    pub template_w: u32,
    pub template_h: u32,
    pub found: TemplateMatch,
}

/// Why a template was not looked for.
#[derive(Clone, Debug)]
pub enum MatchError {
    /// The template cannot be read, with the reason.
    Template(String),
    /// The template is larger than the region, with what is said of it.
    Area(String),
    /// The picture does not hold all of the region.
    Bounds,
}

/// The region in which a template is looked for.
pub open spec fn area_of(use_roi: bool, roi: Option<RoiDef>, frame: &Frame) -> RoiDef {
    if use_roi && roi is Some {
        roi->Some_0
    } else {
        RoiDef { x: 0, y: 0, w: frame.width, h: frame.height }
    }
}

/// Whether `found` is the first of the best places of a template in a gray picture of a region.
pub open spec fn is_best(
    gray: GrayFrame,
    area: RoiDef,
    template: (u32, u32, Seq<u8>),
    found: TemplateMatch,
) -> bool {
    let scores = match_scores(
        gray.width,
        gray.height,
        gray.data@,
        template.0,
        template.1,
        template.2,
    );
    exists|i: int| #[trigger]
        is_first_least(scores, i) && found == match_at(
            scores,
            i,
            (area.w - template.0 + 1) as u32,
            area,
            template.0,
            template.1,
        )
}

/// Whether a template fits into a region.
pub open spec fn fits(template: (u32, u32, Seq<u8>), area: RoiDef) -> bool {
    template.0 <= area.w && template.1 <= area.h
}

/// Looks for a template, given as a PNG file, in a picture: in its own region, if that is asked
/// for and there is one, and else everywhere.
pub fn match_now(frame: &Frame, use_roi: bool, roi: Option<RoiDef>, template_png: &[u8]) -> (r:
    Result<MatchNow, MatchError>)
    requires
        frame.width <= SIDE_LIMIT,
        frame.height <= SIDE_LIMIT,
        roi matches Some(roi) ==> roi.w <= SIDE_LIMIT && roi.h <= SIDE_LIMIT && roi.x + roi.w
            <= u32::MAX && roi.y + roi.h <= u32::MAX,
    ensures
        match png_gray(template_png@) {
            Err(why) => r matches Err(MatchError::Template(text)) && text@ == why,
            Ok(template) => {
                let area = area_of(use_roi, roi, frame);
                if !fits(template, area) {
                    r matches Err(MatchError::Area(text)) && text@ == too_small_text(
                        area.w,
                        area.h,
                        template.0,
                        template.1,
                    )
                } else if !covers(frame, area) {
                    r matches Err(MatchError::Bounds)
                } else {
                    r matches Ok(m) && m.area == area && m.template_w == template.0 && m.template_h
                        == template.1 && exists|gray: GrayFrame| #[trigger]
                        is_gray_of(&gray, frame, area) && is_best(gray, area, template, m.found)
                }
            },
        },
{
    let template = match read_gray_png(template_png) {
        Ok((width, height, data)) => GrayFrame { width, height, data },
        Err(why) => return Err(MatchError::Template(why)),
    };
    let area = search_area(use_roi, roi, frame.width, frame.height);
    if let Some(text) = check_area(area, template.width, template.height) {
        return Err(MatchError::Area(text));
    }
    match gray_of(frame, area) {
        Some(gray) => {
            let scores = score_places(&gray, &template);
            let found = best_match(scores.as_slice(), area, template.width, template.height);
            assert(is_gray_of(&gray, frame, area));
            proof {
                let t = png_gray(template_png@)->Ok_0;
                let columns = (area.w - t.0 + 1) as u32;
                let i = choose|i: int| #[trigger]
                    is_first_least(scores@, i) && found == match_at(
                        scores@,
                        i,
                        columns,
                        area,
                        t.0,
                        t.1,
                    );
                assert(is_first_least(
                    match_scores(gray.width, gray.height, gray.data@, t.0, t.1, t.2),
                    i,
                ));
            }
            Ok(
                MatchNow {
                    area,
                    template_w: template.width,
                    template_h: template.height,
                    found,
                },
            )
        },
        None => Err(MatchError::Bounds),
    }
}

/// A template cut out of a picture: where it was, its PNG file, and the sum of its brightness.
#[derive(Clone, Debug)]
pub struct NewTemplate {
    pub region: RoiDef,
    pub png: Vec<u8>,
    pub luma_sum: u64,
}

/// Why no template was cut out.
#[derive(Clone, Debug)]
pub enum ExtractError {
    /// The region does not lie within the picture, with what is said of it.
    Outside(String),
    /// The picture has no PNG file, with the reason.
    Encode(String),
}

/// The region of a given size round a point.
pub open spec fn region_round(cx: i32, cy: i32, w: u32, h: u32) -> RoiDef {
    RoiDef { x: corner(cx, w) as u32, y: corner(cy, h) as u32, w, h }
}

/// Cuts a template of a given size round a point out of a picture.
pub fn extract_template(frame: &Frame, cx: i32, cy: i32, w: u32, h: u32) -> (r: Result<
    NewTemplate,
    ExtractError,
>)
    requires
        frame.width <= SIDE_LIMIT,
        frame.height <= SIDE_LIMIT,
        frame.is_whole(),
    ensures
        !lies_within(cx, cy, w, h, frame.width, frame.height) ==> (r matches Err(
            ExtractError::Outside(text),
        ) && text@ == outside_text(cx, cy, w, h, frame.width, frame.height)),
        lies_within(cx, cy, w, h, frame.width, frame.height) ==> exists|gray: GrayFrame|
            {
                &&& #[trigger] is_gray_of(&gray, frame, region_round(cx, cy, w, h))
                &&& match png_gray_file(w, h, gray.data@) {
                    Ok(png) => r matches Ok(t) && t.region == region_round(cx, cy, w, h) && t.png@
                        == png && t.luma_sum == byte_sum(gray.data@),
                    Err(why) => r matches Err(ExtractError::Encode(text)) && text@ == why,
                }
            },
        r is Ok && h * w <= READABLE_LIMIT ==> png_gray(r->Ok_0.png@) is Ok && exists|
            gray: GrayFrame,
        | #[trigger]
            is_gray_of(&gray, frame, r->Ok_0.region) && png_gray(r->Ok_0.png@)->Ok_0 == (w, h, gray.data@),
{
    let region = match template_region(cx, cy, w, h, frame.width, frame.height) {
        Ok(region) => region,
        Err(text) => return Err(ExtractError::Outside(text)),
    };
    proof {
        if w > 0 && h > 0 {
            let last = (region.y + (h - 1)) * frame.width + (region.x + (w - 1));
            assert(last < frame.height * frame.width) by (nonlinear_arith)
                requires
                    last == (region.y + (h - 1)) * frame.width + (region.x + (w - 1)),
                    region.y + h <= frame.height,
                    region.x + w <= frame.width,
                    w > 0,
                    h > 0,
            ;
        }
    }
    match gray_of(frame, region) {
        Some(gray) => {
            assert(region == region_round(cx, cy, w, h));
            assert(is_gray_of(&gray, frame, region_round(cx, cy, w, h)));
            assert(gray.data@.len() <= 0x1_0000_0000) by (nonlinear_arith)
                requires
                    gray.data@.len() == h * w,
                    h <= 0x1_0000,
                    w <= 0x1_0000,
            ;
            let luma_sum = luma_sum(&gray);
            match write_gray_png(&gray) {
                Ok(png) => Ok(NewTemplate { region, png, luma_sum }),
                Err(why) => Err(ExtractError::Encode(why)),
            }
        },
        // A region that lies within a whole picture is held by it.
        None => Err(ExtractError::Encode(String::new())),
    }
}

/// Brightness is three tenths of red, nearly six of green and one of blue, rounded down; a gray has
/// its own brightness.
pub proof fn brightness_weighs_the_colors(r: u8, g: u8, b: u8)
    ensures
        1_000 * luma(r, g, b) <= 299 * r + 587 * g + 114 * b < 1_000 * (luma(r, g, b) + 1),
        luma(r, r, r) == r,
{
}

/// The place of a match is where its least score stands among the columns and rows of the places,
/// counted from the corner of the area; its middle lies half a template further. It passes exactly
/// if its score is no more than a fifth, as a number of thirty-two bits.
pub proof fn a_match_lies_where_its_score_stands(
    scores: Seq<u32>,
    i: int,
    columns: u32,
    area: RoiDef,
    w: u32,
    h: u32,
    col: int,
    row: int,
)
    requires
        0 <= col < columns,
        0 <= row,
        i == row * columns + col,
        area.x + col + w / 2 <= u32::MAX,
        area.y + row + h / 2 <= u32::MAX,
    ensures
        match_at(scores, i, columns, area, w, h).top_left_x == area.x + col,
        match_at(scores, i, columns, area, w, h).top_left_y == area.y + row,
        match_at(scores, i, columns, area, w, h).center_x == area.x + col + w / 2,
        match_at(scores, i, columns, area, w, h).center_y == area.y + row + h / 2,
        match_at(scores, i, columns, area, w, h).score_bits == scores[i],
        match_at(scores, i, columns, area, w, h).passed_threshold == (scores[i] <= 0x3E4C_CCCD),
{
    let c = columns as int;
    assert(i % c == col && i / c == row) by (nonlinear_arith)
        requires
            i == row * c + col,
            0 <= col < c,
            0 <= row,
    ;
}

/// A region round a middle reaches as far to the left as to the right, to a pixel, and lies in the
/// picture exactly if none of its edges lies beyond one of the picture's.
pub proof fn a_region_lies_round_its_middle(cx: i32, cy: i32, w: u32, h: u32, width: u32, height: u32)
    ensures
        0 <= (corner(cx, w) + w - cx) - (cx - corner(cx, w)) <= 1,
        lies_within(cx, cy, w, h, width, height) == (cx - w / 2 >= 0 && cy - h / 2 >= 0 && cx - w
            / 2 + w <= width && cy - h / 2 + h <= height),
        lies_within(cx, cy, w, h, width, height) ==> region_round(cx, cy, w, h) == (RoiDef {
            x: (cx - w / 2) as u32,
            y: (cy - h / 2) as u32,
            w,
            h,
        }),
{
}

/// The area that is searched is the one that was asked for, where one was, and the whole picture
/// otherwise.
pub proof fn an_area_is_searched_as_asked(use_roi: bool, roi: Option<RoiDef>, frame: Frame)
    ensures
        use_roi && roi is Some ==> area_of(use_roi, roi, &frame) == roi->0,
        !use_roi || roi is None ==> area_of(use_roi, roi, &frame) == (RoiDef {
            x: 0,
            y: 0,
            w: frame.width,
            h: frame.height,
        }),
{
}

/// A sum of bytes grows by each of them.
pub proof fn a_sum_grows_by_each_byte(data: Seq<u8>, b: u8)
    ensures
        byte_sum(Seq::empty()) == 0,
        byte_sum(data.push(b)) == byte_sum(data) + b,
{
    assert(data.push(b).drop_last() =~= data);
}

/// A gray picture shows in each column and row the brightness of the pixel as far right and down of
/// the region's corner.
pub proof fn a_gray_picture_shows_brightness(
    gray: GrayFrame,
    frame: Frame,
    roi: RoiDef,
    col: int,
    row: int,
)
    requires
        is_gray_of(&gray, &frame, roi),
        0 <= col < roi.w,
        0 <= row < roi.h,
    ensures
        gray.width == roi.w,
        gray.height == roi.h,
        ({
            let p = frame.at(roi.x + col, roi.y + row);
            let v = gray.data@[row * roi.w + col];
            1_000 * v <= 299 * p.r + 587 * p.g + 114 * p.b < 1_000 * v + 1_000
        }),
{
    assert(gray_at(gray.data@, roi.w as int, col, row) == luma_at(&frame, roi, col, row));
    assert(luma_at(&frame, roi, col, row) == luma(
        frame.at(roi.x + col, roi.y + row).r,
        frame.at(roi.x + col, roi.y + row).g,
        frame.at(roi.x + col, roi.y + row).b,
    ));
}

/// The best match has a score that no other place goes below, and no place before it, row by row,
/// reaches.
pub proof fn the_best_match_has_the_least_score(
    gray: GrayFrame,
    area: RoiDef,
    template: (u32, u32, Seq<u8>),
    found: TemplateMatch,
)
    requires
        is_best(gray, area, template, found),
    ensures
        exists|i: int|
            #![trigger match_scores(
                gray.width,
                gray.height,
                gray.data@,
                template.0,
                template.1,
                template.2,
            )[i]]
            {
                let scores = match_scores(
                    gray.width,
                    gray.height,
                    gray.data@,
                    template.0,
                    template.1,
                    template.2,
                );
                &&& 0 <= i < scores.len()
                &&& found.score_bits == scores[i]
                &&& forall|j: int| 0 <= j < scores.len() ==> scores[i] <= #[trigger] scores[j]
                &&& forall|j: int| 0 <= j < i ==> scores[i] < #[trigger] scores[j]
            },
        found.passed_threshold == (found.score_bits <= 0x3E4C_CCCD),
{
    let scores = match_scores(
        gray.width,
        gray.height,
        gray.data@,
        template.0,
        template.1,
        template.2,
    );
    let i = choose|i: int| #[trigger]
        is_first_least(scores, i) && found == match_at(
            scores,
            i,
            (area.w - template.0 + 1) as u32,
            area,
            template.0,
            template.1,
        );
    assert(found.score_bits == scores[i]);
}

/// A picture covers a region exactly if it has the color of the region's last pixel.
pub proof fn a_region_is_covered_to_its_last_pixel(frame: Frame, roi: RoiDef)
    ensures
        roi.w > 0 && roi.h > 0 ==> covers(&frame, roi) == (4 * ((roi.y + roi.h - 1) * frame.width + (
        roi.x + roi.w - 1)) + 2 < frame.data@.len()),
        roi.w == 0 || roi.h == 0 ==> covers(&frame, roi),
{
}

/// A region that lies outside is told by its corner and size and by the size of the picture; an
/// area that is too small by its own size and by that of the template.
pub proof fn what_does_not_fit_is_told_by_its_size(
    cx: i32,
    cy: i32,
    w: u32,
    h: u32,
    width: u32,
    height: u32,
)
    ensures
        outside_text(cx, cy, w, h, width, height) == "Region ("@ + signed(cx - w as int / 2) + ","@
            + signed(cy - h as int / 2) + ","@ + decimal(w as nat) + ","@ + decimal(h as nat)
            + ") fuera del frame "@ + decimal(width as nat) + "x"@ + decimal(height as nat),
        too_small_text(width, height, w, h) == "search_area ("@ + decimal(width as nat) + "x"@
            + decimal(height as nat) + ") < template ("@ + decimal(w as nat) + "x"@ + decimal(
            h as nat,
        ) + ")"@,
        fits((w, h, Seq::empty()), RoiDef { x: 0, y: 0, w: width, h: height }) == (w <= width && h
            <= height),
{
}

} // verus!
