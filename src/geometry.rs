use vstd::prelude::*;
use vstd::string::*;
use crate::text::{lower_of, lowercase, same_text};

verus! {

/// A rectangle in screen pixels: top-left corner, width and height.
#[derive(Clone, Copy, PartialEq, Eq, Structural, Debug)]
pub struct Rect {
    pub x: i32,
    pub y: i32,
    pub w: i32,
    pub h: i32,
}

pub open spec fn fits_i32(v: int) -> bool {
    i32::MIN <= v <= i32::MAX
}

/// Half of `v`, rounded toward zero, as Rust's integer division does.
pub open spec fn half(v: int) -> int {
    if v >= 0 {
        v / 2
    } else {
        -((-v) / 2)
    }
}

fn half_of(v: i64) -> (r: i64)
    requires
        v > i64::MIN,
    ensures
        r == half(v as int),
{
    if v >= 0 {
        v / 2
    } else {
        -((-v) / 2)
    }
}

/// Where the popup's top-left corner goes on a monitor `s`, for a named
/// placement and the configured offsets and size `a`; (20, 30) for a name
/// that is not known.
pub open spec fn origin_spec(placement: Seq<char>, s: Rect, a: Rect) -> (int, int) {
    let (sx, sy, sw, sh) = (s.x as int, s.y as int, s.w as int, s.h as int);
    let (ax, ay, aw, ah) = (a.x as int, a.y as int, a.w as int, a.h as int);
    if placement == "top_left"@ {
        (sx + ax, sy + ay)
    } else if placement == "top_center"@ {
        (sx + half(sw - aw), sy + ay)
    } else if placement == "top_right"@ {
        (sx + sw - aw - ax, sy + ay)
    } else if placement == "bottom_left"@ {
        (sx + ax, sy + sh - ah - ay)
    } else if placement == "bottom_center"@ {
        (sx + half(sw - aw), sy + sh - ah - ay)
    } else if placement == "bottom_right"@ {
        (sx + sw - aw - ax, sy + sh - ah - ay)
    } else {
        (20, 30)
    }
}

/// The placement used where the configuration names none.
pub open spec fn placement_or_default(placement: Option<&str>) -> Seq<char> {
    match placement {
        Some(p) => p@,
        None => "top_center"@,
    }
}

/// The popup's top-left corner on monitor `screen` for a placement name
/// (`top_center` where none is given), with `area` holding the configured
/// offsets (`x`, `y`) and size (`w`, `h`).
pub fn window_origin(placement: Option<&str>, screen: Rect, area: Rect) -> (r: (i32, i32))
    requires
        fits_i32(origin_spec(placement_or_default(placement), screen, area).0),
        fits_i32(origin_spec(placement_or_default(placement), screen, area).1),
    ensures
        r.0 as int == origin_spec(placement_or_default(placement), screen, area).0,
        r.1 as int == origin_spec(placement_or_default(placement), screen, area).1,
{
    let name = match placement {
        Some(p) => p,
        None => "top_center",
    };
    let (sx, sy, sw, sh) = (screen.x as i64, screen.y as i64, screen.w as i64, screen.h as i64);
    let (ax, ay, aw, ah) = (area.x as i64, area.y as i64, area.w as i64, area.h as i64);
    let (x, y) = if same_text(name, "top_left") {
        (sx + ax, sy + ay)
    } else if same_text(name, "top_center") {
        (sx + half_of(sw - aw), sy + ay)
    } else if same_text(name, "top_right") {
        (sx + sw - aw - ax, sy + ay)
    } else if same_text(name, "bottom_left") {
        (sx + ax, sy + sh - ah - ay)
    } else if same_text(name, "bottom_center") {
        (sx + half_of(sw - aw), sy + sh - ah - ay)
    } else if same_text(name, "bottom_right") {
        (sx + sw - aw - ax, sy + sh - ah - ay)
    } else {
        (20, 30)
    };
    (x as i32, y as i32)
}

/// Where the popup goes for horizontal side `h` (`left` or `right`) and
/// vertical side `v` (`top` or `bottom`), case aside, on monitor `m`; the
/// rectangle (0, 0, 100, 100) for any other pair.
pub open spec fn size_spec(m: Rect, v: Seq<char>, h: Seq<char>, ax: int, ay: int, aw: int, ah: int) -> (
    int,
    int,
    int,
    int,
) {
    let (sx, sy, sw, sh) = (m.x as int, m.y as int, m.w as int, m.h as int);
    if h == "left"@ && v == "top"@ {
        (sx + ax, ay + sy, aw, ah)
    } else if h == "left"@ && v == "bottom"@ {
        (sx + ax, sy + sh - ah - ay, aw, ah)
    } else if h == "right"@ && v == "top"@ {
        (sx + sw - aw - ax, sy + ay, aw, ah)
    } else if h == "right"@ && v == "bottom"@ {
        (sx + sw - aw - ax, sy + sh - ah - ay, aw, ah)
    } else {
        (0, 0, 100, 100)
    }
}

/// Where each part of the popup is drawn, for a window of `w` by `h` pixels
/// with a border of `weight` pixels and corners of `radius`.
#[derive(Clone, Copy, PartialEq, Eq, Structural, Debug)]
pub struct Layout {
    /// The inner window that holds the text, relative to the outer one.
    pub inner: Rect,
    /// The rounded rectangle filled with the background colour.
    pub fill: Rect,
    /// The title label, relative to the inner window.
    pub title: Rect,
    /// The message label, relative to the inner window.
    pub message: Rect,
}

pub open spec fn rect_spec(r: Rect, x: int, y: int, w: int, h: int) -> bool {
    r.x == x && r.y == y && r.w == w && r.h == h
}

/// The values a layout is made of, as integers.
pub open spec fn layout_values(
    w: int,
    h: int,
    weight: int,
    radius: int,
    tx: int,
    ty: int,
    mx: int,
    my: int,
) -> Seq<int> {
    let inset = weight + half(radius);
    let iw = w - weight * 2 - radius;
    let ih = h - weight * 2 - radius;
    seq![
        inset, iw, ih,
        weight - 1, w - weight * 2 + 2, h - weight * 2 + 2,
        5 + tx, 20 + ty, iw - 10, ih - 10,
        5 + mx, 20 + my,
    ]
}

/// The popup's parts for a window `size` (only `w` and `h` count), a border
/// (`weight`, `radius`), and the offsets of the title and message labels.
pub fn layout(size: Rect, border: (i32, i32), title: (i32, i32), message: (i32, i32)) -> (r: Layout)
    requires
        forall|i: int|
            0 <= i < 12 ==> fits_i32(
                #[trigger] layout_values(
                    size.w as int,
                    size.h as int,
                    border.0 as int,
                    border.1 as int,
                    title.0 as int,
                    title.1 as int,
                    message.0 as int,
                    message.1 as int,
                )[i],
            ),
    ensures
        ({
            let v = layout_values(
                size.w as int,
                size.h as int,
                border.0 as int,
                border.1 as int,
                title.0 as int,
                title.1 as int,
                message.0 as int,
                message.1 as int,
            );
            &&& rect_spec(r.inner, v[0], v[0], v[1], v[2])
            &&& rect_spec(r.fill, v[3], v[3], v[4], v[5])
            &&& rect_spec(r.title, v[6], v[7], v[8], v[9])
            &&& rect_spec(r.message, v[10], v[11], v[8], v[9])
        }),
{
    let ghost v = layout_values(
        size.w as int,
        size.h as int,
        border.0 as int,
        border.1 as int,
        title.0 as int,
        title.1 as int,
        message.0 as int,
        message.1 as int,
    );
    assert(fits_i32(v[0]) && fits_i32(v[1]) && fits_i32(v[2]) && fits_i32(v[3]));
    assert(fits_i32(v[4]) && fits_i32(v[5]) && fits_i32(v[6]) && fits_i32(v[7]));
    assert(fits_i32(v[8]) && fits_i32(v[9]) && fits_i32(v[10]) && fits_i32(v[11]));
    let (w, h) = (size.w as i64, size.h as i64);
    let (weight, radius) = (border.0 as i64, border.1 as i64);
    let inset = (weight + half_of(radius)) as i32;
    let iw = w - weight * 2 - radius;
    let ih = h - weight * 2 - radius;
    let inner = Rect { x: inset, y: inset, w: iw as i32, h: ih as i32 };
    let edge = (weight - 1) as i32;
    let fill = Rect { x: edge, y: edge, w: (w - weight * 2 + 2) as i32, h: (h - weight * 2 + 2) as i32 };
    let lw = (iw - 10) as i32;
    let lh = (ih - 10) as i32;
    let title_rect = Rect {
        x: (5 + title.0 as i64) as i32,
        y: (20 + title.1 as i64) as i32,
        w: lw,
        h: lh,
    };
    let message_rect = Rect {
        x: (5 + message.0 as i64) as i32,
        y: (20 + message.1 as i64) as i32,
        w: lw,
        h: lh,
    };
    Layout { inner, fill, title: title_rect, message: message_rect }
}

/// Every corner position `size_spec` can pick on monitor `m` fits in `i32`.
pub open spec fn sides_fit(m: Rect, ax: int, ay: int, aw: int, ah: int) -> bool {
    &&& fits_i32(m.x + ax)
    &&& fits_i32(m.y + ay)
    &&& fits_i32(m.x + m.w - aw - ax)
    &&& fits_i32(m.y + m.h - ah - ay)
}

/// The popup's rectangle on monitor `monitor` of `screens`, from the words
/// for its vertical (`v`) and horizontal (`h`) side, compared without regard
/// to case, and the configured offsets and size.
pub fn get_size(
    screens: &Vec<Rect>,
    monitor: usize,
    v: &str,
    h: &str,
    ax: i32,
    ay: i32,
    aw: i32,
    ah: i32,
) -> (r: (i32, i32, i32, i32))
    requires
        monitor < screens@.len(),
        sides_fit(screens@[monitor as int], ax as int, ay as int, aw as int, ah as int),
    ensures
        r.0 as int == size_spec(screens@[monitor as int], lower_of(v@), lower_of(h@), ax as int, ay as int, aw as int, ah as int).0,
        r.1 as int == size_spec(screens@[monitor as int], lower_of(v@), lower_of(h@), ax as int, ay as int, aw as int, ah as int).1,
        r.2 as int == size_spec(screens@[monitor as int], lower_of(v@), lower_of(h@), ax as int, ay as int, aw as int, ah as int).2,
        r.3 as int == size_spec(screens@[monitor as int], lower_of(v@), lower_of(h@), ax as int, ay as int, aw as int, ah as int).3,
{
    let vl = lowercase(v);
    let hl = lowercase(h);
    let m = screens[monitor];
    let (sx, sy, sw, sh) = (m.x as i64, m.y as i64, m.w as i64, m.h as i64);
    let (x, y, w, hh) = (ax as i64, ay as i64, aw as i64, ah as i64);
    let left = same_text(hl.as_str(), "left");
    let right = same_text(hl.as_str(), "right");
    let top = same_text(vl.as_str(), "top");
    let bottom = same_text(vl.as_str(), "bottom");
    if left && top {
        ((sx + x) as i32, (y + sy) as i32, aw, ah)
    } else if left && bottom {
        ((sx + x) as i32, (sy + sh - hh - y) as i32, aw, ah)
    } else if right && top {
        ((sx + sw - w - x) as i32, (sy + y) as i32, aw, ah)
    } else if right && bottom {
        ((sx + sw - w - x) as i32, (sy + sh - hh - y) as i32, aw, ah)
    } else {
        (0, 0, 100, 100)
    }
}

} // verus!
