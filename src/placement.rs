use vstd::prelude::*;

verus! {

/// A monitor's area in screen coordinates.
#[derive(Debug, Clone, Copy, PartialEq, Eq, Structural)]
pub struct Area {
    pub x: i32,
    pub y: i32,
    pub width: u32,
    pub height: u32,
}

/// The room left along one side once the popup is placed: none when the
/// popup is larger than the monitor.
pub open spec fn slack(extent: int, size: int) -> int {
    if extent > size {
        extent - size
    } else {
        0
    }
}

pub open spec fn clamp(v: int, lo: int, hi: int) -> int {
    if v < lo {
        lo
    } else if v > hi {
        hi
    } else {
        v
    }
}

/// Where a popup of the given size goes along one axis: at the cursor, kept
/// inside the monitor; centred where there is no cursor.
pub open spec fn axis_position(cursor: Option<int>, start: int, extent: int, size: int) -> int {
    match cursor {
        Some(c) => clamp(c, start, start + slack(extent, size)),
        None => start + slack(extent, size) / 2,
    }
}

fn place_on_axis(cursor: Option<i32>, start: i32, extent: u32, size: u32) -> (r: i64)
    ensures
        r == axis_position(
            match cursor {
                Some(c) => Some(c as int),
                None => None,
            },
            start as int,
            extent as int,
            size as int,
        ),
{
    let room: i64 = if extent > size {
        (extent - size) as i64
    } else {
        0
    };
    let lo = start as i64;
    let hi = lo + room;
    match cursor {
        Some(c) => {
            let c = c as i64;
            if c < lo {
                lo
            } else if c > hi {
                hi
            } else {
                c
            }
        },
        None => lo + room / 2,
    }
}

/// The top-left corner of the capture popup: at the cursor captured with
/// the hotkey, clamped so that the popup stays on `monitor`, or centred on
/// it when no cursor position is known.
pub fn popup_position(cursor: Option<(i32, i32)>, monitor: Area, width: u32, height: u32) -> (r: (i64, i64))
    ensures
        r.0 == axis_position(
            match cursor {
                Some(p) => Some(p.0 as int),
                None => None,
            },
            monitor.x as int,
            monitor.width as int,
            width as int,
        ),
        r.1 == axis_position(
            match cursor {
                Some(p) => Some(p.1 as int),
                None => None,
            },
            monitor.y as int,
            monitor.height as int,
            height as int,
        ),
        width <= monitor.width ==> monitor.x <= r.0 && r.0 + width <= monitor.x + monitor.width,
        height <= monitor.height ==> monitor.y <= r.1 && r.1 + height <= monitor.y + monitor.height,
{
    let (cx, cy) = match cursor {
        Some((x, y)) => (Some(x), Some(y)),
        None => (None, None),
    };
    (place_on_axis(cx, monitor.x, monitor.width, width), place_on_axis(cy, monitor.y, monitor.height, height))
}

} // verus!
