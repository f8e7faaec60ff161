//! Pictures of the screen with the known regions marked on them.

use vstd::prelude::*;

use crate::remote::requests::picture_pixels;
use crate::perception::BattleEntry;
use crate::remote::picture::{
    clip, clipped, cut, enlarge, is_cut, is_enlarged, is_loot_view, loot_view, pixel_at, Frame, Pixel,
    RoiDef, SIDE_LIMIT,
};

verus! {

/// The largest coordinate and size of a region that can be marked: every point of its edge is then
/// a whole number in single precision, in which lines are drawn.
pub const ROI_LIMIT: u32 = 0x50_0000;

/// The height of a row of the battle list.
pub const ENTRY_HEIGHT: u32 = 22;

/// How much larger than on the screen the battle list is shown.
pub const BATTLE_SCALE: u32 = 3;

/// How much larger than on the screen the loot area is shown.
pub const LOOT_SCALE: u32 = 3;

/// The largest width and height of a picture of which parts are shown enlarged.
pub const FRAME_LIMIT: u32 = 0x5555;

/// The most bytes of a picture that are read back from a file.
pub const READABLE_LIMIT: usize = 0x0800_0000;

/// The regions of the screen that are known.
#[derive(Clone, Debug)]
pub struct Regions {
    pub hp_bar: Option<RoiDef>,
    pub mana_bar: Option<RoiDef>,
    pub battle_list: Option<RoiDef>,
    pub minimap: Option<RoiDef>,
    pub status_icons: Option<RoiDef>,
    pub game_viewport: Option<RoiDef>,
    pub anchors: Vec<RoiDef>,
}

/// Why a picture cannot be shown.
#[derive(Clone, Debug)]
pub enum GrabError {
    /// There are fewer bytes than the picture has.
    BadFrame,
    /// It cannot be written as a PNG file, for the reason given.
    Encode(String),
}

/// Whether a region can be marked.
pub open spec fn can_mark(roi: RoiDef) -> bool {
    roi.x <= ROI_LIMIT && roi.y <= ROI_LIMIT && roi.w <= ROI_LIMIT && roi.h <= ROI_LIMIT
}

/// Whether a region, if there is one, can be marked.
pub open spec fn can_mark_opt(roi: Option<RoiDef>) -> bool {
    roi matches Some(r) ==> can_mark(r)
}

impl Regions {
    /// Whether all regions can be marked.
    pub open spec fn wf(&self) -> bool {
        &&& can_mark_opt(self.hp_bar)
        &&& can_mark_opt(self.mana_bar)
        &&& can_mark_opt(self.battle_list)
        &&& can_mark_opt(self.minimap)
        &&& can_mark_opt(self.status_icons)
        &&& can_mark_opt(self.game_viewport)
        &&& forall|i: int| 0 <= i < self.anchors@.len() ==> can_mark(#[trigger] self.anchors@[i])
    }
}

/// Whether a pixel lies on the edge of a rectangle.
pub open spec fn on_edge(px: int, py: int, x: int, y: int, w: int, h: int) -> bool {
    ||| x <= px < x + w && (py == y || py == y + h - 1)
    ||| y <= py < y + h && (px == x || px == x + w - 1)
}

/// A byte of a colour.
pub open spec fn channel(color: Pixel, c: int) -> u8 {
    if c == 0 {
        color.r
    } else if c == 1 {
        color.g
    } else if c == 2 {
        color.b
    } else {
        color.a
    }
}

/// The bytes of a picture after the edge of a rectangle was drawn on it, as far as it lies
/// within the picture.
pub open spec fn outlined(
    data: Seq<u8>,
    width: int,
    x: int,
    y: int,
    w: int,
    h: int,
    color: Pixel,
) -> Seq<u8> {
    Seq::new(
        data.len(),
        |k: int|
            if on_edge((k / 4) % width, (k / 4) / width, x, y, w, h) {
                channel(color, k % 4)
            } else {
                data[k]
            },
    )
}

/// `imageproc::drawing::draw_hollow_rect_mut` on an `image::RgbaImage` made of the bytes: it
/// draws the edge of the rectangle, as far as it lies within the picture, and nothing else.
#[verifier::external_body]
fn outline(width: u32, height: u32, data: Vec<u8>, x: u32, y: u32, w: u32, h: u32, color: Pixel) -> (r:
    Vec<u8>)
    requires
        data@.len() == 4 * (height * width),
        width <= SIDE_LIMIT,
        height <= SIDE_LIMIT,
        x <= ROI_LIMIT + 1,
        y <= 2 * ROI_LIMIT,
        0 < w <= ROI_LIMIT,
        0 < h <= ROI_LIMIT,
    ensures
        r@ == outlined(data@, width as int, x as int, y as int, w as int, h as int, color),
{
    match image::RgbaImage::from_raw(width, height, data) {
        Some(mut canvas) => {
            let rect = imageproc::rect::Rect::at(x as i32, y as i32).of_size(w, h);
            let paint = image::Rgba([color.r, color.g, color.b, color.a]);
            imageproc::drawing::draw_hollow_rect_mut(&mut canvas, rect, paint);
            canvas.into_raw()
        },
        None => Vec::new(),
    }
}

/// A PNG file of a picture, or why there is none.
pub uninterp spec fn png_file(width: u32, height: u32, data: Seq<u8>) -> Result<
    Seq<u8>,
    Seq<char>,
>;

/// `image::RgbaImage::write_to` with `ImageFormat::Png`. The format loses nothing: what is read
/// back is the picture that was written, as long as it is small enough to be read back.
#[verifier::external_body]
fn write_png(width: u32, height: u32, data: Vec<u8>) -> (r: Result<Vec<u8>, String>)
    requires
        data@.len() == 4 * (height * width),
        width <= SIDE_LIMIT,
        height <= SIDE_LIMIT,
    ensures
        (r is Ok) == (png_file(width, height, data@) is Ok),
        r is Ok ==> r->Ok_0@ == png_file(width, height, data@)->Ok_0,
        r is Err ==> r->Err_0@ == png_file(width, height, data@)->Err_0,
        r is Ok && data@.len() <= READABLE_LIMIT ==> picture_pixels(r->Ok_0@) is Ok,
        r is Ok && data@.len() <= READABLE_LIMIT ==> picture_pixels(r->Ok_0@)->Ok_0 == (
            width,
            height,
            data@,
        ),
{
    let mut out = std::io::Cursor::new(Vec::new());
    match image::RgbaImage::from_raw(width, height, data) {
        Some(canvas) => match canvas.write_to(&mut out, image::ImageFormat::Png) {
            Ok(()) => Ok(out.into_inner()),
            Err(e) => Err(e.to_string()),
        },
        None => Err(String::new()),
    }
}

/// The larger of a size and 1.
pub open spec fn at_least_one(v: u32) -> int {
    if v == 0 {
        1
    } else {
        v as int
    }
}

/// The bytes of a picture after a rectangle was drawn on it with an edge two pixels thick, the
/// inner one in a colour of its own.
pub open spec fn framed(
    data: Seq<u8>,
    width: int,
    roi: RoiDef,
    outer: Pixel,
    inner: Pixel,
) -> Seq<u8> {
    let once = outlined(
        data,
        width,
        roi.x as int,
        roi.y as int,
        at_least_one(roi.w),
        at_least_one(roi.h),
        outer,
    );
    if roi.w > 2 && roi.h > 2 {
        outlined(once, width, roi.x + 1, roi.y + 1, roi.w - 2, roi.h - 2, inner)
    } else {
        once
    }
}

/// The bytes of a picture after a region was framed, if there is one.
pub open spec fn framed_opt(data: Seq<u8>, width: int, roi: Option<RoiDef>, color: Pixel) -> Seq<u8> {
    match roi {
        Some(roi) => framed(data, width, roi, color, color),
        None => data,
    }
}

/// The bytes of a picture after some regions were framed, one after the other.
pub open spec fn framed_all(
    data: Seq<u8>,
    width: int,
    rois: Seq<RoiDef>,
    outer: Pixel,
    inner: Pixel,
) -> Seq<u8>
    decreases rois.len(),
{
    if rois.len() == 0 {
        data
    } else {
        framed(framed_all(data, width, rois.drop_last(), outer, inner), width, rois.last(), outer, inner)
    }
}

fn draw_frame(frame: Frame, roi: RoiDef, outer: Pixel, inner: Pixel) -> (r: Frame)
    requires
        frame.wf(),
        roi.x <= ROI_LIMIT,
        roi.y <= 2 * ROI_LIMIT - 1,
        roi.w <= ROI_LIMIT,
        roi.h <= ROI_LIMIT,
    ensures
        r.wf(),
        r.width == frame.width,
        r.height == frame.height,
        r.data@ == framed(frame.data@, frame.width as int, roi, outer, inner),
{
    let width: u32 = frame.width;
    let height: u32 = frame.height;
    let w: u32 = if roi.w == 0 {
        1
    } else {
        roi.w
    };
    let h: u32 = if roi.h == 0 {
        1
    } else {
        roi.h
    };
    let mut data = outline(width, height, frame.data, roi.x, roi.y, w, h, outer);
    if roi.w > 2 && roi.h > 2 {
        data = outline(width, height, data, roi.x + 1, roi.y + 1, roi.w - 2, roi.h - 2, inner);
    }
    Frame { width, height, data }
}

fn draw_opt(frame: Frame, roi: &Option<RoiDef>, color: Pixel) -> (r: Frame)
    requires
        frame.wf(),
        can_mark_opt(*roi),
    ensures
        r.wf(),
        r.width == frame.width,
        r.height == frame.height,
        r.data@ == framed_opt(frame.data@, frame.width as int, *roi, color),
{
    match roi {
        Some(roi) => draw_frame(frame, *roi, color, color),
        None => frame,
    }
}

fn draw_all(frame: Frame, rois: &Vec<RoiDef>, outer: Pixel, inner: Pixel) -> (r: Frame)
    requires
        frame.wf(),
        forall|i: int| 0 <= i < rois@.len() ==> can_mark(#[trigger] rois@[i]),
    ensures
        r.wf(),
        r.width == frame.width,
        r.height == frame.height,
        r.data@ == framed_all(frame.data@, frame.width as int, rois@, outer, inner),
{
    let ghost data = frame.data@;
    let ghost width = frame.width;
    let ghost height = frame.height;
    let mut canvas = frame;
    let mut i: usize = 0;
    while i < rois.len()
        invariant
            i <= rois@.len(),
            forall|i: int| 0 <= i < rois@.len() ==> can_mark(#[trigger] rois@[i]),
            canvas.wf(),
            canvas.width == width,
            canvas.height == height,
            canvas.data@ == framed_all(data, width as int, rois@.take(i as int), outer, inner),
        decreases rois@.len() - i,
    {
        assert(can_mark(rois@[i as int]));
        canvas = draw_frame(canvas, rois[i], outer, inner);
        assert(rois@.take(i + 1).drop_last() =~= rois@.take(i as int));
        i = i + 1;
    }
    assert(rois@.take(i as int) =~= rois@);
    canvas
}

/// The bytes of a picture that belong to its pixels, if they are all there.
pub fn whole(frame: &Frame) -> (r: Option<Frame>)
    requires
        frame.width <= SIDE_LIMIT,
        frame.height <= SIDE_LIMIT,
    ensures
        (r is Some) == frame.is_whole(),
        r matches Some(f) ==> f.wf() && f.width == frame.width && f.height == frame.height && f.data@
            == frame.data@.take(4 * (frame.height * frame.width)),
{
    proof {
        let w = frame.width as int;
        let h = frame.height as int;
        assert(0 <= h * w <= 0x1_0000_0000) by (nonlinear_arith)
            requires
                0 <= w <= 0x1_0000,
                0 <= h <= 0x1_0000,
        ;
    }
    let size: u64 = 4 * (frame.height as u64 * frame.width as u64);
    if (frame.data.len() as u64) < size {
        return None;
    }
    let n: usize = size as usize;
    let mut data: Vec<u8> = Vec::new();
    let mut i: usize = 0;
    while i < n
        invariant
            i <= n <= frame.data@.len(),
            data@ == frame.data@.take(i as int),
        decreases n - i,
    {
        data.push(frame.data[i]);
        i = i + 1;
        assert(data@ =~= frame.data@.take(i as int));
    }
    Some(Frame { width: frame.width, height: frame.height, data })
}

/// The bytes of the pixels of a picture.
pub open spec fn pixels_of(frame: &Frame) -> Seq<u8> {
    frame.data@.take(4 * (frame.height * frame.width))
}

/// Whether a result is the PNG file of a picture with the given bytes, or says why there is
/// none.
pub open spec fn shows(
    r: Result<Vec<u8>, GrabError>,
    width: u32,
    height: u32,
    data: Seq<u8>,
) -> bool {
    match r {
        Ok(png) => png_file(width, height, data) == Ok::<Seq<u8>, Seq<char>>(png@) && (data.len()
            <= READABLE_LIMIT ==> picture_pixels(png@) is Ok && picture_pixels(png@)->Ok_0 == (
            width,
            height,
            data,
        )),
        Err(GrabError::Encode(text)) => png_file(width, height, data)
            == Err::<Seq<u8>, Seq<char>>(text@),
        Err(GrabError::BadFrame) => false,
    }
}

fn show(frame: Frame) -> (r: Result<Vec<u8>, GrabError>)
    requires
        frame.wf(),
    ensures
        shows(r, frame.width, frame.height, frame.data@),
{
    match write_png(frame.width, frame.height, frame.data) {
        Ok(png) => Ok(png),
        Err(text) => Err(GrabError::Encode(text)),
    }
}

/// The screen.
pub fn grab(frame: &Frame) -> (r: Result<Vec<u8>, GrabError>)
    requires
        frame.width <= SIDE_LIMIT,
        frame.height <= SIDE_LIMIT,
    ensures
        !frame.is_whole() ==> r matches Err(GrabError::BadFrame),
        frame.is_whole() ==> shows(r, frame.width, frame.height, pixels_of(frame)),
{
    match whole(frame) {
        Some(f) => show(f),
        None => Err(GrabError::BadFrame),
    }
}

pub open spec fn green() -> Pixel {
    Pixel { r: 0, g: 255, b: 0, a: 255 }
}

pub open spec fn blue() -> Pixel {
    Pixel { r: 0, g: 100, b: 255, a: 255 }
}

pub open spec fn cyan() -> Pixel {
    Pixel { r: 0, g: 255, b: 255, a: 255 }
}

/// The bytes of the screen with the calibrated regions framed.
pub open spec fn anchors_drawn(data: Seq<u8>, width: int, regions: &Regions) -> Seq<u8> {
    let a = framed_opt(data, width, regions.hp_bar, green());
    let b = framed_opt(a, width, regions.mana_bar, blue());
    let c = framed_opt(b, width, regions.battle_list, (Pixel { r: 255, g: 50, b: 50, a: 255 }));
    let d = framed_opt(c, width, regions.minimap, cyan());
    let e = framed_opt(d, width, regions.status_icons, (Pixel { r: 255, g: 255, b: 0, a: 255 }));
    let f = framed_opt(e, width, regions.game_viewport, (Pixel { r: 200, g: 200, b: 200, a: 200 }));
    let magenta = Pixel { r: 255, g: 0, b: 255, a: 255 };
    framed_all(f, width, regions.anchors@, magenta, magenta)
}

/// The screen with the calibrated regions framed.
pub fn grab_anchors(frame: &Frame, regions: &Regions) -> (r: Result<Vec<u8>, GrabError>)
    requires
        frame.width <= SIDE_LIMIT,
        frame.height <= SIDE_LIMIT,
        regions.wf(),
    ensures
        !frame.is_whole() ==> r matches Err(GrabError::BadFrame),
        frame.is_whole() ==> shows(
            r,
            frame.width,
            frame.height,
            anchors_drawn(pixels_of(frame), frame.width as int, regions),
        ),
{
    match whole(frame) {
        Some(f) => {
            let f = draw_opt(f, &regions.hp_bar, Pixel { r: 0, g: 255, b: 0, a: 255 });
            let f = draw_opt(f, &regions.mana_bar, Pixel { r: 0, g: 100, b: 255, a: 255 });
            let f = draw_opt(f, &regions.battle_list, Pixel { r: 255, g: 50, b: 50, a: 255 });
            let f = draw_opt(f, &regions.minimap, Pixel { r: 0, g: 255, b: 255, a: 255 });
            let f = draw_opt(f, &regions.status_icons, Pixel { r: 255, g: 255, b: 0, a: 255 });
            let f = draw_opt(f, &regions.game_viewport, Pixel { r: 200, g: 200, b: 200, a: 200 });
            let magenta = Pixel { r: 255, g: 0, b: 255, a: 255 };
            let f = draw_all(f, &regions.anchors, magenta, magenta);
            show(f)
        },
        None => Err(GrabError::BadFrame),
    }
}

/// The region of a row of the battle list.
pub open spec fn row_of(list: RoiDef, row: int) -> RoiDef {
    RoiDef {
        x: list.x,
        y: (list.y + row * ENTRY_HEIGHT) as u32,
        w: list.w,
        h: ENTRY_HEIGHT,
    }
}

/// The bytes of a picture with the first `n` rows of the battle list framed.
pub open spec fn rows_drawn(data: Seq<u8>, width: int, list: RoiDef, n: int, color: Pixel) -> Seq<u8>
    decreases n,
{
    if n <= 0 {
        data
    } else {
        framed(rows_drawn(data, width, list, n - 1, color), width, row_of(list, n - 1), color, color)
    }
}

/// The bytes of a picture with the rows of some entries framed.
pub open spec fn entries_drawn(
    data: Seq<u8>,
    width: int,
    list: RoiDef,
    entries: Seq<BattleEntry>,
    color: Pixel,
) -> Seq<u8>
    decreases entries.len(),
{
    if entries.len() == 0 {
        data
    } else {
        framed(
            entries_drawn(data, width, list, entries.drop_last(), color),
            width,
            row_of(list, entries.last().row as int),
            color,
            color,
        )
    }
}

fn draw_rows(frame: Frame, list: RoiDef, color: Pixel) -> (r: Frame)
    requires
        frame.wf(),
        can_mark(list),
    ensures
        r.wf(),
        r.width == frame.width,
        r.height == frame.height,
        r.data@ == rows_drawn(
            frame.data@,
            frame.width as int,
            list,
            (list.h / ENTRY_HEIGHT) as int,
            color,
        ),
{
    let ghost data = frame.data@;
    let ghost width = frame.width;
    let ghost height = frame.height;
    let n: u32 = list.h / ENTRY_HEIGHT;
    let mut canvas = frame;
    let mut row: u32 = 0;
    while row < n
        invariant
            row <= n,
            n == list.h / ENTRY_HEIGHT,
            can_mark(list),
            canvas.wf(),
            canvas.width == width,
            canvas.height == height,
            canvas.data@ == rows_drawn(data, width as int, list, row as int, color),
        decreases n - row,
    {
        assert(row * 22 + 22 <= list.h) by (nonlinear_arith)
            requires
                row < list.h / 22,
        ;
        let roi = RoiDef { x: list.x, y: list.y + row * ENTRY_HEIGHT, w: list.w, h: ENTRY_HEIGHT };
        canvas = draw_frame(canvas, roi, color, color);
        row = row + 1;
    }
    canvas
}

fn draw_entries(frame: Frame, list: RoiDef, entries: &Vec<BattleEntry>, color: Pixel) -> (r: Frame)
    requires
        frame.wf(),
        can_mark(list),
    ensures
        r.wf(),
        r.width == frame.width,
        r.height == frame.height,
        r.data@ == entries_drawn(frame.data@, frame.width as int, list, entries@, color),
{
    let ghost data = frame.data@;
    let ghost width = frame.width;
    let ghost height = frame.height;
    let mut canvas = frame;
    let mut i: usize = 0;
    while i < entries.len()
        invariant
            i <= entries@.len(),
            can_mark(list),
            canvas.wf(),
            canvas.width == width,
            canvas.height == height,
            canvas.data@ == entries_drawn(data, width as int, list, entries@.take(i as int), color),
        decreases entries@.len() - i,
    {
        let row: u32 = entries[i].row as u32;
        let roi = RoiDef { x: list.x, y: list.y + row * ENTRY_HEIGHT, w: list.w, h: ENTRY_HEIGHT };
        canvas = draw_frame(canvas, roi, color, color);
        assert(entries@.take(i + 1).drop_last() =~= entries@.take(i as int));
        i = i + 1;
    }
    assert(entries@.take(i as int) =~= entries@);
    canvas
}

/// The bytes of the screen with all regions, the rows of the battle list, and its entries.
pub open spec fn debug_drawn(
    data: Seq<u8>,
    width: int,
    regions: &Regions,
    entries: Option<Seq<BattleEntry>>,
) -> Seq<u8> {
    let a = framed_opt(data, width, regions.hp_bar, green());
    let b = framed_opt(a, width, regions.mana_bar, blue());
    let c = framed_opt(b, width, regions.minimap, cyan());
    let d = framed_opt(c, width, regions.game_viewport, (Pixel { r: 200, g: 200, b: 200, a: 180 }));
    let red = Pixel { r: 255, g: 0, b: 0, a: 255 };
    let e = framed_all(d, width, regions.anchors@, red, red);
    match regions.battle_list {
        Some(list) => {
            let rows = rows_drawn(
                e,
                width,
                list,
                (list.h / ENTRY_HEIGHT) as int,
                (Pixel { r: 255, g: 220, b: 0, a: 255 }),
            );
            match entries {
                Some(entries) => entries_drawn(
                    rows,
                    width,
                    list,
                    entries,
                    (Pixel { r: 255, g: 140, b: 0, a: 255 }),
                ),
                None => rows,
            }
        },
        None => e,
    }
}

/// The screen with all regions, the rows of the battle list, and its entries, if any were seen.
pub fn grab_debug(frame: &Frame, regions: &Regions, entries: Option<&Vec<BattleEntry>>) -> (r:
    Result<Vec<u8>, GrabError>)
    requires
        frame.width <= SIDE_LIMIT,
        frame.height <= SIDE_LIMIT,
        regions.wf(),
    ensures
        !frame.is_whole() ==> r matches Err(GrabError::BadFrame),
        frame.is_whole() ==> shows(
            r,
            frame.width,
            frame.height,
            debug_drawn(
                pixels_of(frame),
                frame.width as int,
                regions,
                match entries {
                    Some(v) => Some(v@),
                    None => None,
                },
            ),
        ),
{
    match whole(frame) {
        Some(f) => {
            let f = draw_opt(f, &regions.hp_bar, Pixel { r: 0, g: 255, b: 0, a: 255 });
            let f = draw_opt(f, &regions.mana_bar, Pixel { r: 0, g: 100, b: 255, a: 255 });
            let f = draw_opt(f, &regions.minimap, Pixel { r: 0, g: 255, b: 255, a: 255 });
            let f = draw_opt(f, &regions.game_viewport, Pixel { r: 200, g: 200, b: 200, a: 180 });
            let red = Pixel { r: 255, g: 0, b: 0, a: 255 };
            let f = draw_all(f, &regions.anchors, red, red);
            match &regions.battle_list {
                Some(list) => {
                    let f = draw_rows(f, *list, Pixel { r: 255, g: 220, b: 0, a: 255 });
                    match entries {
                        Some(entries) => {
                            let f = draw_entries(
                                f,
                                *list,
                                entries,
                                Pixel { r: 255, g: 140, b: 0, a: 255 },
                            );
                            show(f)
                        },
                        None => show(f),
                    }
                },
                None => show(f),
            }
        },
        None => Err(GrabError::BadFrame),
    }
}

/// The slots of the inventory: those of the strip, else those of the grid, else those listed one
/// by one.
pub fn inventory_slots(
    strip: Option<Vec<RoiDef>>,
    grid: Option<Vec<RoiDef>>,
    listed: Vec<RoiDef>,
) -> (r: Vec<RoiDef>)
    ensures
        r == match strip {
            Some(slots) => slots,
            None => match grid {
                Some(slots) => slots,
                None => listed,
            },
        },
{
    match strip {
        Some(slots) => slots,
        None => match grid {
            Some(slots) => slots,
            None => listed,
        },
    }
}

/// The screen with the slots of the inventory framed.
pub fn grab_inventory(frame: &Frame, slots: &Vec<RoiDef>) -> (r: Result<Vec<u8>, GrabError>)
    requires
        frame.width <= SIDE_LIMIT,
        frame.height <= SIDE_LIMIT,
        forall|i: int|
            0 <= i < slots@.len() ==> can_mark(#[trigger] slots@[i]) && slots@[i].w > 0
                && slots@[i].h > 0,
    ensures
        !frame.is_whole() ==> r matches Err(GrabError::BadFrame),
        frame.is_whole() ==> shows(
            r,
            frame.width,
            frame.height,
            framed_all(
                pixels_of(frame),
                frame.width as int,
                slots@,
                (Pixel { r: 255, g: 255, b: 0, a: 255 }),
                (Pixel { r: 255, g: 200, b: 0, a: 255 }),
            ),
        ),
{
    match whole(frame) {
        Some(f) => {
            let f = draw_all(
                f,
                slots,
                Pixel { r: 255, g: 255, b: 0, a: 255 },
                Pixel { r: 255, g: 200, b: 0, a: 255 },
            );
            show(f)
        },
        None => Err(GrabError::BadFrame),
    }
}

/// The region of the battle list if none is calibrated.
pub open spec fn battle_region(list: Option<RoiDef>) -> RoiDef {
    match list {
        Some(roi) => roi,
        None => RoiDef { x: 1690, y: 0, w: 230, h: 400 },
    }
}

/// The battle list, enlarged.
pub fn battle_picture(frame: &Frame, list: Option<RoiDef>) -> (r: Frame)
    requires
        frame.width <= FRAME_LIMIT,
        frame.height <= FRAME_LIMIT,
    ensures
        exists|small: Frame| #[trigger]
            is_cut(&small, frame, clipped(battle_region(list), frame.width, frame.height))
                && is_enlarged(&r, &small, BATTLE_SCALE),
{
    let roi = match list {
        Some(roi) => roi,
        None => RoiDef { x: 1690, y: 0, w: 230, h: 400 },
    };
    let area = clip(roi, frame.width, frame.height);
    let small = cut(frame, area);
    let big = enlarge(&small, BATTLE_SCALE);
    assert(is_cut(&small, frame, clipped(battle_region(list), frame.width, frame.height)));
    big
}

/// The battle list, enlarged, as a PNG file.
pub fn grab_battle(frame: &Frame, list: Option<RoiDef>) -> (r: Result<Vec<u8>, GrabError>)
    requires
        frame.width <= FRAME_LIMIT,
        frame.height <= FRAME_LIMIT,
    ensures
        exists|small: Frame, big: Frame| #[trigger]
            is_cut(&small, frame, clipped(battle_region(list), frame.width, frame.height))
                && #[trigger] is_enlarged(&big, &small, BATTLE_SCALE) && shows(
                r,
                big.width,
                big.height,
                big.data@,
            ),
{
    let big = battle_picture(frame, list);
    show(big)
}

/// The loot area, enlarged, with its sparkles in red.
pub fn loot_picture(frame: &Frame, area: RoiDef, sparkles: &[bool]) -> (r: Frame)
    requires
        frame.width <= FRAME_LIMIT,
        frame.height <= FRAME_LIMIT,
        sparkles@.len() == clipped(area, frame.width, frame.height).h * clipped(
            area,
            frame.width,
            frame.height,
        ).w,
    ensures
        exists|small: Frame| #[trigger]
            is_loot_view(&small, frame, clipped(area, frame.width, frame.height), sparkles@)
                && is_enlarged(&r, &small, LOOT_SCALE),
{
    let area = clip(area, frame.width, frame.height);
    let small = loot_view(frame, area, sparkles);
    let big = enlarge(&small, LOOT_SCALE);
    assert(is_loot_view(&small, frame, area, sparkles@));
    big
}

/// The loot area, enlarged, with its sparkles in red, as a PNG file.
pub fn grab_loot(frame: &Frame, area: RoiDef, sparkles: &[bool]) -> (r: Result<
    Vec<u8>,
    GrabError,
>)
    requires
        frame.width <= FRAME_LIMIT,
        frame.height <= FRAME_LIMIT,
        sparkles@.len() == clipped(area, frame.width, frame.height).h * clipped(
            area,
            frame.width,
            frame.height,
        ).w,
    ensures
        exists|small: Frame, big: Frame| #[trigger]
            is_loot_view(&small, frame, clipped(area, frame.width, frame.height), sparkles@)
                && #[trigger] is_enlarged(&big, &small, LOOT_SCALE) && shows(
                r,
                big.width,
                big.height,
                big.data@,
            ),
{
    let big = loot_picture(frame, area, sparkles);
    show(big)
}

/// What is drawn round a region: the pixels of its first and last row and column in the given
/// color, and no other pixel.
pub proof fn an_outline_is_drawn_on_the_edge(
    data: Seq<u8>,
    width: int,
    x: int,
    y: int,
    w: int,
    h: int,
    color: Pixel,
    col: int,
    row: int,
)
    requires
        0 <= col < width,
        0 <= row,
        4 * (row * width + col) + 3 < data.len(),
        w > 0,
        h > 0,
    ensures
        pixel_at(outlined(data, width, x, y, w, h, color), width, col, row) == (if x <= col < x + w
            && y <= row < y + h && (col == x || col == x + w - 1 || row == y || row == y + h - 1) {
            color
        } else {
            pixel_at(data, width, col, row)
        }),
        outlined(data, width, x, y, w, h, color).len() == data.len(),
{
    let n: int = row * width + col;
    assert(n % width == col && n / width == row && n >= 0) by (nonlinear_arith)
        requires
            n == row * width + col,
            0 <= col < width,
            0 <= row,
    ;
    let k: int = 4 * n;
    assert(k / 4 == n && (k + 1) / 4 == n && (k + 2) / 4 == n && (k + 3) / 4 == n);
    assert(k % 4 == 0 && (k + 1) % 4 == 1 && (k + 2) % 4 == 2 && (k + 3) % 4 == 3);
}

/// A region is framed by two lines, the outer one on its edge and the inner one right inside, where
/// it is large enough; what lies further inside or outside is left alone.
pub proof fn a_frame_is_two_lines_wide(
    data: Seq<u8>,
    width: int,
    roi: RoiDef,
    outer: Pixel,
    inner: Pixel,
    col: int,
    row: int,
)
    requires
        0 <= col < width,
        0 <= row,
        4 * (row * width + col) + 3 < data.len(),
        roi.w > 4,
        roi.h > 4,
    ensures
        ({
            let p = pixel_at(framed(data, width, roi, outer, inner), width, col, row);
            let inside = roi.x <= col < roi.x + roi.w && roi.y <= row < roi.y + roi.h;
            if inside && (col == roi.x || col == roi.x + roi.w - 1 || row == roi.y || row == roi.y
                + roi.h - 1) {
                p == outer
            } else if inside && (col == roi.x + 1 || col == roi.x + roi.w - 2 || row == roi.y + 1
                || row == roi.y + roi.h - 2) {
                p == inner
            } else {
                p == pixel_at(data, width, col, row)
            }
        }),
        framed(data, width, roi, outer, inner).len() == data.len(),
{
    let once = outlined(
        data,
        width,
        roi.x as int,
        roi.y as int,
        roi.w as int,
        roi.h as int,
        outer,
    );
    an_outline_is_drawn_on_the_edge(
        data,
        width,
        roi.x as int,
        roi.y as int,
        roi.w as int,
        roi.h as int,
        outer,
        col,
        row,
    );
    an_outline_is_drawn_on_the_edge(
        once,
        width,
        roi.x + 1,
        roi.y + 1,
        roi.w - 2,
        roi.h - 2,
        inner,
        col,
        row,
    );
}

/// A region that was not found is not framed; several are framed one after the other.
pub proof fn regions_are_framed_in_order(
    data: Seq<u8>,
    width: int,
    rois: Seq<RoiDef>,
    roi: RoiDef,
    color: Pixel,
)
    ensures
        framed_opt(data, width, None, color) == data,
        framed_opt(data, width, Some(roi), color) == framed(data, width, roi, color, color),
        framed_all(data, width, Seq::empty(), color, color) == data,
        framed_all(data, width, rois.push(roi), color, color) == framed(
            framed_all(data, width, rois, color, color),
            width,
            roi,
            color,
            color,
        ),
{
    assert(rois.push(roi).drop_last() =~= rois);
}

/// In the overview of the anchors the bars are framed in green and blue, the battle list in red,
/// the minimap in cyan, the icons in yellow, the view of the game in gray, and the anchors, last
/// of all, in magenta.
pub proof fn each_region_has_its_own_color(data: Seq<u8>, width: int, regions: Regions, roi: RoiDef)
    requires
        regions.anchors@.len() == 0,
    ensures
        regions.hp_bar == Some(roi) && regions.mana_bar is None && regions.battle_list is None
            && regions.minimap is None && regions.status_icons is None
            && regions.game_viewport is None ==> anchors_drawn(data, width, &regions) == framed(
            data,
            width,
            roi,
            Pixel { r: 0, g: 255, b: 0, a: 255 },
            Pixel { r: 0, g: 255, b: 0, a: 255 },
        ),
        regions.hp_bar is None && regions.mana_bar == Some(roi) && regions.battle_list is None
            && regions.minimap is None && regions.status_icons is None
            && regions.game_viewport is None ==> anchors_drawn(data, width, &regions) == framed(
            data,
            width,
            roi,
            Pixel { r: 0, g: 100, b: 255, a: 255 },
            Pixel { r: 0, g: 100, b: 255, a: 255 },
        ),
        regions.hp_bar is None && regions.mana_bar is None && regions.battle_list == Some(roi)
            && regions.minimap is None && regions.status_icons is None
            && regions.game_viewport is None ==> anchors_drawn(data, width, &regions) == framed(
            data,
            width,
            roi,
            Pixel { r: 255, g: 50, b: 50, a: 255 },
            Pixel { r: 255, g: 50, b: 50, a: 255 },
        ),
        regions.hp_bar is None && regions.mana_bar is None && regions.battle_list is None
            && regions.minimap == Some(roi) && regions.status_icons is None
            && regions.game_viewport is None ==> anchors_drawn(data, width, &regions) == framed(
            data,
            width,
            roi,
            Pixel { r: 0, g: 255, b: 255, a: 255 },
            Pixel { r: 0, g: 255, b: 255, a: 255 },
        ),
        regions.hp_bar is None && regions.mana_bar is None && regions.battle_list is None
            && regions.minimap is None && regions.status_icons == Some(roi)
            && regions.game_viewport is None ==> anchors_drawn(data, width, &regions) == framed(
            data,
            width,
            roi,
            Pixel { r: 255, g: 255, b: 0, a: 255 },
            Pixel { r: 255, g: 255, b: 0, a: 255 },
        ),
        regions.hp_bar is None && regions.mana_bar is None && regions.battle_list is None
            && regions.minimap is None && regions.status_icons is None && regions.game_viewport
            == Some(roi) ==> anchors_drawn(data, width, &regions) == framed(
            data,
            width,
            roi,
            Pixel { r: 200, g: 200, b: 200, a: 200 },
            Pixel { r: 200, g: 200, b: 200, a: 200 },
        ),
{
}

/// The rows of the battle list are 22 pixels high and follow each other from its top; one more is
/// framed below the others, and one more entry is framed on its own row.
pub proof fn rows_follow_each_other(
    data: Seq<u8>,
    width: int,
    list: RoiDef,
    n: int,
    entries: Seq<BattleEntry>,
    e: BattleEntry,
    color: Pixel,
)
    requires
        n >= 0,
        list.y + 22 * n <= u32::MAX,
        list.y + 22 * e.row <= u32::MAX,
    ensures
        row_of(list, n) == (RoiDef { x: list.x, y: (list.y + 22 * n) as u32, w: list.w, h: 22 }),
        rows_drawn(data, width, list, 0, color) == data,
        rows_drawn(data, width, list, n + 1, color) == framed(
            rows_drawn(data, width, list, n, color),
            width,
            RoiDef { x: list.x, y: (list.y + 22 * n) as u32, w: list.w, h: 22 },
            color,
            color,
        ),
        entries_drawn(data, width, list, Seq::empty(), color) == data,
        entries_drawn(data, width, list, entries.push(e), color) == framed(
            entries_drawn(data, width, list, entries, color),
            width,
            RoiDef { x: list.x, y: (list.y + 22 * e.row) as u32, w: list.w, h: 22 },
            color,
            color,
        ),
{
    assert(entries.push(e).drop_last() =~= entries);
}

/// The battle list is looked for where it was found, and else at the right edge of a usual screen.
pub proof fn the_battle_list_has_a_usual_place(roi: RoiDef)
    ensures
        battle_region(Some(roi)) == roi,
        battle_region(None) == (RoiDef { x: 1690, y: 0, w: 230, h: 400 }),
{
}

/// In the overview for debugging the bars are framed in green and blue, the minimap in cyan, the
/// view of the game in a fainter gray and the anchors in red; then the rows of the battle list in
/// yellow, and over them those that hold an entry in orange.
pub proof fn the_debug_view_has_its_own_colors(
    data: Seq<u8>,
    width: int,
    regions: Regions,
    roi: RoiDef,
    entries: Seq<BattleEntry>,
)
    requires
        regions.hp_bar is None || regions.hp_bar == Some(roi),
        regions.mana_bar is None || regions.mana_bar == Some(roi),
        regions.minimap is None || regions.minimap == Some(roi),
        regions.game_viewport is None || regions.game_viewport == Some(roi),
    ensures
        regions.battle_list is None && regions.anchors@.len() == 0 && regions.mana_bar is None
            && regions.minimap is None && regions.game_viewport is None && regions.hp_bar is Some
            ==> debug_drawn(data, width, &regions, None) == framed(
            data,
            width,
            roi,
            Pixel { r: 0, g: 255, b: 0, a: 255 },
            Pixel { r: 0, g: 255, b: 0, a: 255 },
        ),
        regions.battle_list is None && regions.anchors@.len() == 0 && regions.hp_bar is None
            && regions.minimap is None && regions.game_viewport is None && regions.mana_bar is Some
            ==> debug_drawn(data, width, &regions, None) == framed(
            data,
            width,
            roi,
            Pixel { r: 0, g: 100, b: 255, a: 255 },
            Pixel { r: 0, g: 100, b: 255, a: 255 },
        ),
        regions.battle_list is None && regions.anchors@.len() == 0 && regions.hp_bar is None
            && regions.mana_bar is None && regions.game_viewport is None && regions.minimap is Some
            ==> debug_drawn(data, width, &regions, None) == framed(
            data,
            width,
            roi,
            Pixel { r: 0, g: 255, b: 255, a: 255 },
            Pixel { r: 0, g: 255, b: 255, a: 255 },
        ),
        regions.battle_list is None && regions.anchors@.len() == 0 && regions.hp_bar is None
            && regions.mana_bar is None && regions.minimap is None && regions.game_viewport is Some
            ==> debug_drawn(data, width, &regions, None) == framed(
            data,
            width,
            roi,
            Pixel { r: 200, g: 200, b: 200, a: 180 },
            Pixel { r: 200, g: 200, b: 200, a: 180 },
        ),
        regions.battle_list is None && regions.hp_bar is None && regions.mana_bar is None
            && regions.minimap is None && regions.game_viewport is None ==> debug_drawn(
            data,
            width,
            &regions,
            None,
        ) == framed_all(
            data,
            width,
            regions.anchors@,
            Pixel { r: 255, g: 0, b: 0, a: 255 },
            Pixel { r: 255, g: 0, b: 0, a: 255 },
        ),
        regions.battle_list matches Some(list) ==> debug_drawn(data, width, &regions, None)
            == rows_drawn(
            debug_drawn(data, width, &(Regions { battle_list: None, ..regions }), None),
            width,
            list,
            list.h as int / 22,
            Pixel { r: 255, g: 220, b: 0, a: 255 },
        ),
        regions.battle_list matches Some(list) ==> debug_drawn(data, width, &regions, Some(entries))
            == entries_drawn(
            debug_drawn(data, width, &regions, None),
            width,
            list,
            entries,
            Pixel { r: 255, g: 140, b: 0, a: 255 },
        ),
        regions.battle_list is None ==> debug_drawn(data, width, &regions, Some(entries))
            == debug_drawn(data, width, &regions, None),
{
}

} // verus!
