//! Start-up: what the reported geometry of the desktop means for the coordinates.

use vstd::prelude::*;
use vstd::string::*;

use crate::config::CoordsConfig;
use crate::text::{push_signed, signed};

verus! {

/// Where a window lies on the desktop.
#[derive(Clone, Copy, Debug, PartialEq, Eq, Structural)]
pub struct WindowRect {
    pub x: i32,
    pub y: i32,
    pub w: i32,
    pub h: i32,
}

/// The part of the desktop that clicks reach, and the window of the game if there is one.
#[derive(Clone, Copy, Debug, PartialEq, Eq, Structural)]
pub struct Geometry {
    pub vscreen_x: i32,
    pub vscreen_y: i32,
    pub vscreen_w: i32,
    pub vscreen_h: i32,
    pub tibia: Option<WindowRect>,
}

/// A length of at least 1.
pub open spec fn length_of(v: i32) -> u32 {
    if v < 1 {
        1
    } else {
        v as u32
    }
}

/// Half of a length, rounded towards 0.
pub open spec fn half_of(v: i32) -> int {
    if v < 0 {
        -((-v) / 2)
    } else {
        v as int / 2
    }
}

/// The column in the middle of a window.
pub open spec fn center_x(win: WindowRect) -> int {
    win.x + half_of(win.w)
}

/// The row in the middle of a window.
pub open spec fn center_y(win: WindowRect) -> int {
    win.y + half_of(win.h)
}

/// Whether clicks reach the middle of a window.
pub open spec fn is_mapped(geom: Geometry, win: WindowRect) -> bool {
    &&& geom.vscreen_x <= center_x(win) < geom.vscreen_x + geom.vscreen_w
    &&& geom.vscreen_y <= center_y(win) < geom.vscreen_y + geom.vscreen_h
}

/// The coordinates that the reported geometry gives; what it does not report stays as it was.
pub open spec fn placed(cfg: CoordsConfig, geom: Geometry) -> CoordsConfig {
    let screen = CoordsConfig {
        vscreen_origin_x: geom.vscreen_x,
        vscreen_origin_y: geom.vscreen_y,
        desktop_total_w: length_of(geom.vscreen_w),
        desktop_total_h: length_of(geom.vscreen_h),
        ..cfg
    };
    match geom.tibia {
        Some(win) => CoordsConfig {
            tibia_window_x: win.x,
            tibia_window_y: win.y,
            tibia_window_w: length_of(win.w),
            tibia_window_h: length_of(win.h),
            ..screen
        },
        None => screen,
    }
}

/// Why the bot is paused if clicks do not reach the middle of the window.
pub open spec fn off_screen_text(geom: Geometry, win: WindowRect) -> Seq<char> {
    "tibia_off_mapped_screen: center=("@ + signed(center_x(win)) + ","@ + signed(center_y(win))
        + ") vscreen=["@ + signed(geom.vscreen_x as int) + ".."@ + signed(
        geom.vscreen_x + geom.vscreen_w,
    ) + ","@ + signed(geom.vscreen_y as int) + ".."@ + signed(geom.vscreen_y + geom.vscreen_h)
        + "]. Con mode=serial, Tibia debe estar en PRIMARY monitor (HID Arduino solo targetea primary). Mové la ventana de Tibia al primary y reinicia el bot."@
}

fn at_least_one(v: i32) -> (r: u32)
    ensures
        r == length_of(v),
{
    if v < 1 {
        1
    } else {
        v as u32
    }
}

fn half(v: i32) -> (r: i64)
    ensures
        r == half_of(v),
        -0x4000_0000 <= r <= 0x4000_0000,
{
    if v < 0 {
        -((-(v as i64)) / 2)
    } else {
        v as i64 / 2
    }
}

/// Puts the reported geometry in place of what was configured.
pub fn apply_geometry(cfg: CoordsConfig, geom: Geometry) -> (r: CoordsConfig)
    ensures
        r == placed(cfg, geom),
{
    let mut r = cfg;
    r.vscreen_origin_x = geom.vscreen_x;
    r.vscreen_origin_y = geom.vscreen_y;
    r.desktop_total_w = at_least_one(geom.vscreen_w);
    r.desktop_total_h = at_least_one(geom.vscreen_h);
    if let Some(win) = geom.tibia {
        r.tibia_window_x = win.x;
        r.tibia_window_y = win.y;
        r.tibia_window_w = at_least_one(win.w);
        r.tibia_window_h = at_least_one(win.h);
    }
    r
}

/// Why the bot must be paused, if it must: there is a window, and clicks do not reach its middle.
pub fn screen_trouble(geom: Geometry) -> (r: Option<String>)
    ensures
        (r is Some) == (geom.tibia is Some && !is_mapped(geom, geom.tibia->Some_0)),
        r matches Some(text) ==> text@ == off_screen_text(geom, geom.tibia->Some_0),
{
    let win = match geom.tibia {
        Some(win) => win,
        None => return None,
    };
    let cx: i64 = win.x as i64 + half(win.w);
    let cy: i64 = win.y as i64 + half(win.h);
    let right: i64 = geom.vscreen_x as i64 + geom.vscreen_w as i64;
    let bottom: i64 = geom.vscreen_y as i64 + geom.vscreen_h as i64;
    let left: i64 = geom.vscreen_x as i64;
    let top: i64 = geom.vscreen_y as i64;
    if left <= cx && cx < right && top <= cy && cy < bottom {
        return None;
    }
    let mut s = "tibia_off_mapped_screen: center=(".to_owned();
    push_signed(&mut s, cx);
    s.append(",");
    push_signed(&mut s, cy);
    s.append(") vscreen=[");
    push_signed(&mut s, left);
    s.append("..");
    push_signed(&mut s, right);
    s.append(",");
    push_signed(&mut s, top);
    s.append("..");
    push_signed(&mut s, bottom);
    s.append(
        "]. Con mode=serial, Tibia debe estar en PRIMARY monitor (HID Arduino solo targetea primary). Mové la ventana de Tibia al primary y reinicia el bot.",
    );
    assert(s@ =~= off_screen_text(geom, win));
    Some(s)
}

/// Where the window was found and clicks reach its middle, that middle lies on the desktop that
/// the coordinates describe.
pub proof fn a_mapped_window_is_on_the_desktop(cfg: CoordsConfig, geom: Geometry)
    requires
        geom.tibia is Some,
        is_mapped(geom, geom.tibia->Some_0),
    ensures
        ({
            let c = placed(cfg, geom);
            &&& c.vscreen_origin_x <= center_x(geom.tibia->Some_0) < c.vscreen_origin_x
                + c.desktop_total_w
            &&& c.vscreen_origin_y <= center_y(geom.tibia->Some_0) < c.vscreen_origin_y
                + c.desktop_total_h
        }),
{
}

/// The reported desktop takes the place of the configured one, and the reported window that of the
/// configured window, where one was reported. A length is never less than one.
pub proof fn what_is_reported_takes_its_place(cfg: CoordsConfig, geom: Geometry)
    ensures
        placed(cfg, geom).vscreen_origin_x == geom.vscreen_x,
        placed(cfg, geom).vscreen_origin_y == geom.vscreen_y,
        geom.vscreen_w >= 1 ==> placed(cfg, geom).desktop_total_w == geom.vscreen_w,
        geom.vscreen_h >= 1 ==> placed(cfg, geom).desktop_total_h == geom.vscreen_h,
        geom.vscreen_w < 1 ==> placed(cfg, geom).desktop_total_w == 1,
        geom.vscreen_h < 1 ==> placed(cfg, geom).desktop_total_h == 1,
        geom.tibia is None ==> placed(cfg, geom) == (CoordsConfig {
            vscreen_origin_x: placed(cfg, geom).vscreen_origin_x,
            vscreen_origin_y: placed(cfg, geom).vscreen_origin_y,
            desktop_total_w: placed(cfg, geom).desktop_total_w,
            desktop_total_h: placed(cfg, geom).desktop_total_h,
            ..cfg
        }),
        geom.tibia matches Some(win) ==> {
            &&& placed(cfg, geom).tibia_window_x == win.x
            &&& placed(cfg, geom).tibia_window_y == win.y
            &&& win.w >= 1 ==> placed(cfg, geom).tibia_window_w == win.w
            &&& win.h >= 1 ==> placed(cfg, geom).tibia_window_h == win.h
            &&& win.w < 1 ==> placed(cfg, geom).tibia_window_w == 1
            &&& win.h < 1 ==> placed(cfg, geom).tibia_window_h == 1
        },
{
}

/// The middle of a window lies as far from its left edge as from its right, to a pixel, and as far
/// from its top as from its bottom. Clicks reach it exactly if it lies on the reported desktop.
pub proof fn the_middle_lies_between_the_edges(geom: Geometry, win: WindowRect)
    requires
        win.w >= 0,
        win.h >= 0,
    ensures
        0 <= (win.x + win.w - center_x(win)) - (center_x(win) - win.x) <= 1,
        0 <= (win.y + win.h - center_y(win)) - (center_y(win) - win.y) <= 1,
        is_mapped(geom, win) == (geom.vscreen_x <= win.x + win.w / 2 && win.x + win.w / 2
            < geom.vscreen_x + geom.vscreen_w && geom.vscreen_y <= win.y + win.h / 2 && win.y
            + win.h / 2 < geom.vscreen_y + geom.vscreen_h),
{
}

/// The text on a window that clicks do not reach gives the column and the row of its middle, and
/// then the first and the last column and row of the desktop, in that order.
pub proof fn an_unreached_window_is_told_by_its_middle(geom: Geometry, win: WindowRect)
    requires
        win.w >= 0,
        win.h >= 0,
    ensures
        off_screen_text(geom, win) == "tibia_off_mapped_screen: center=("@ + signed(
            win.x + win.w as int / 2,
        ) + ","@ + signed(win.y + win.h as int / 2) + ") vscreen=["@ + signed(geom.vscreen_x as int)
            + ".."@ + signed(geom.vscreen_x + geom.vscreen_w) + ","@ + signed(geom.vscreen_y as int)
            + ".."@ + signed(geom.vscreen_y + geom.vscreen_h)
            + "]. Con mode=serial, Tibia debe estar en PRIMARY monitor (HID Arduino solo targetea primary). Mové la ventana de Tibia al primary y reinicia el bot."@,
{
}

} // verus!
