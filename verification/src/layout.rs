use vstd::prelude::*;

use crate::models::{AppSettingsView, PanelId, PanelPosition, PositionPreset};
use crate::settings::{clamp, pinned_settings, MAX_PANEL_EXTENT, MIN_PANEL_HEIGHT, MIN_PANEL_WIDTH};

verus! {

/// The physical area of a monitor: its top-left corner and its size in pixels.
#[derive(Debug, Clone, Copy, PartialEq, Eq, Structural)]
pub struct MonitorArea {
    pub x: i32,
    pub y: i32,
    pub width: u32,
    pub height: u32,
}

/// The logical size a panel window gets: its stored size brought into bounds.
pub fn panel_size(position: &PanelPosition) -> (size: (u32, u32))
    ensures
        size.0 == clamp(position.width as int, MIN_PANEL_WIDTH as int, MAX_PANEL_EXTENT as int),
        size.1 == clamp(position.height as int, MIN_PANEL_HEIGHT as int, MAX_PANEL_EXTENT as int),
{
    let width = if position.width < MIN_PANEL_WIDTH {
        MIN_PANEL_WIDTH
    } else if position.width > MAX_PANEL_EXTENT {
        MAX_PANEL_EXTENT
    } else {
        position.width
    };
    let height = if position.height < MIN_PANEL_HEIGHT {
        MIN_PANEL_HEIGHT
    } else if position.height > MAX_PANEL_EXTENT {
        MAX_PANEL_EXTENT
    } else {
        position.height
    };
    (width, height)
}

/// `v` fits in an `i32`.
pub open spec fn fits_i32(v: int) -> bool {
    i32::MIN <= v <= i32::MAX
}

/// Half of `v`, rounded toward zero as integer division does.
pub open spec fn half_toward_zero(v: int) -> int {
    if v >= 0 {
        v / 2
    } else {
        -((-v) / 2)
    }
}

/// The coordinate at which a window of `size` pixels ends flush with the far
/// edge of a monitor span that starts at `origin` and is `extent` pixels long.
/// The extent is read as an `i32`, as the placement code converts it.
pub open spec fn far_edge(origin: i32, extent: u32, size: i32) -> int {
    origin + (extent as i32) - size
}

/// The coordinate that centres a window of `size` pixels on the span.
pub open spec fn centred(origin: i32, extent: u32, size: i32) -> int {
    origin + half_toward_zero((extent as i32) - size)
}

/// Where the top-left corner of a panel goes on monitor `m`, given the panel's
/// physical width `w`, height `h` and the physical margin kept from the edges.
pub open spec fn placement(position: PanelPosition, m: MonitorArea, w: i32, h: i32, margin: i32) -> (int, int) {
    match position.preset {
        PositionPreset::TopLeft => (m.x + margin, m.y + margin),
        PositionPreset::TopCenter => (centred(m.x, m.width, w), m.y + margin),
        PositionPreset::TopRight => (far_edge(m.x, m.width, w) - margin, m.y + margin),
        PositionPreset::Center => (centred(m.x, m.width, w), centred(m.y, m.height, h)),
        PositionPreset::BottomLeft => (m.x + margin, far_edge(m.y, m.height, h) - margin),
        PositionPreset::BottomRight => (
            far_edge(m.x, m.width, w) - margin,
            far_edge(m.y, m.height, h) - margin,
        ),
        PositionPreset::Custom => (position.x as int, position.y as int),
    }
}

/// Every intermediate value that the placement of `position` computes fits in
/// an `i32`; beyond that the computation would overflow.
pub open spec fn placement_in_range(position: PanelPosition, m: MonitorArea, w: i32, h: i32, margin: i32) -> bool {
    let wx = m.width as i32;
    let hy = m.height as i32;
    &&& fits_i32(m.x + wx)
    &&& fits_i32(far_edge(m.x, m.width, w))
    &&& fits_i32(m.y + hy)
    &&& fits_i32(far_edge(m.y, m.height, h))
    &&& match position.preset {
        PositionPreset::TopLeft => fits_i32(m.x + margin) && fits_i32(m.y + margin),
        PositionPreset::TopCenter => fits_i32(wx - w) && fits_i32(centred(m.x, m.width, w))
            && fits_i32(m.y + margin),
        PositionPreset::TopRight => fits_i32(far_edge(m.x, m.width, w) - margin) && fits_i32(
            m.y + margin,
        ),
        PositionPreset::Center => fits_i32(wx - w) && fits_i32(centred(m.x, m.width, w))
            && fits_i32(hy - h) && fits_i32(centred(m.y, m.height, h)),
        PositionPreset::BottomLeft => fits_i32(m.x + margin) && fits_i32(
            far_edge(m.y, m.height, h) - margin,
        ),
        PositionPreset::BottomRight => fits_i32(far_edge(m.x, m.width, w) - margin) && fits_i32(
            far_edge(m.y, m.height, h) - margin,
        ),
        PositionPreset::Custom => true,
    }
}

/// The physical position of the top-left corner of a panel on monitor
/// `monitor`: anchored at a corner, an edge centre or the centre with
/// `margin` pixels kept from the edges, or the stored position for `Custom`.
pub fn panel_placement(
    position: &PanelPosition,
    monitor: MonitorArea,
    physical_width: i32,
    physical_height: i32,
    margin: i32,
) -> (corner: (i32, i32))
    requires
        placement_in_range(*position, monitor, physical_width, physical_height, margin),
    ensures
        corner.0 as int == placement(*position, monitor, physical_width, physical_height, margin).0,
        corner.1 as int == placement(*position, monitor, physical_width, physical_height, margin).1,
{
    let monitor_width = monitor.width as i32;
    let monitor_height = monitor.height as i32;
    let max_x = monitor.x + monitor_width - physical_width;
    let max_y = monitor.y + monitor_height - physical_height;
    match position.preset {
        PositionPreset::TopLeft => (monitor.x + margin, monitor.y + margin),
        PositionPreset::TopCenter => (
            monitor.x + (monitor_width - physical_width) / 2,
            monitor.y + margin,
        ),
        PositionPreset::TopRight => (max_x - margin, monitor.y + margin),
        PositionPreset::Center => (
            monitor.x + (monitor_width - physical_width) / 2,
            monitor.y + (monitor_height - physical_height) / 2,
        ),
        PositionPreset::BottomLeft => (monitor.x + margin, max_y - margin),
        PositionPreset::BottomRight => (max_x - margin, max_y - margin),
        PositionPreset::Custom => (position.x, position.y),
    }
}

/// A panel pinned at (`x`, `y`) is placed at exactly that position on any
/// monitor, at any size and margin, and pinning it leaves the other panels
/// as they were.
pub proof fn lemma_pinned_panel_stays(
    s: AppSettingsView,
    id: PanelId,
    x: i32,
    y: i32,
    m: MonitorArea,
    w: i32,
    h: i32,
    margin: i32,
)
    ensures
        placement(pinned_settings(s, id, x, y).panels.panel(id).position, m, w, h, margin) == (
            x as int,
            y as int,
        ),
        forall|other: PanelId|
            other != id ==> #[trigger] pinned_settings(s, id, x, y).panels.panel(other)
                == s.panels.panel(other),
{
}

/// The placement a preset gives does not depend on where the monitor lies:
/// moving the monitor's origin moves the placed corner by the same amount.
/// (A `Custom` panel keeps its stored position instead.)
pub proof fn lemma_placement_follows_monitor(
    position: PanelPosition,
    m: MonitorArea,
    moved: MonitorArea,
    w: i32,
    h: i32,
    margin: i32,
)
    requires
        position.preset != PositionPreset::Custom,
        moved.width == m.width,
        moved.height == m.height,
    ensures
        placement(position, moved, w, h, margin).0 - moved.x == placement(position, m, w, h, margin).0
            - m.x,
        placement(position, moved, w, h, margin).1 - moved.y == placement(position, m, w, h, margin).1
            - m.y,
{
}

/// The distance between `a` and `b` is at most one.
pub open spec fn within_one(a: int, b: int) -> bool {
    -1 <= a - b <= 1
}

/// Where each preset puts a panel of `w` by `h` pixels on monitor `m`, said by
/// the gaps it leaves to the monitor's edges: the presets on the left keep
/// `margin` to the left edge, those on the right keep it to the right edge,
/// the top ones to the top edge, the bottom ones to the bottom edge, and a
/// centred axis leaves gaps on both sides that differ by at most one pixel.
pub proof fn lemma_placement_gaps(position: PanelPosition, m: MonitorArea, w: i32, h: i32, margin: i32)
    requires
        m.width <= i32::MAX,
        m.height <= i32::MAX,
    ensures
        ({
            let (x, y) = placement(position, m, w, h, margin);
            let left = x - m.x;
            let right = m.x + m.width - (x + w);
            let top = y - m.y;
            let bottom = m.y + m.height - (y + h);
            &&& (position.preset == PositionPreset::TopLeft || position.preset
                == PositionPreset::BottomLeft) ==> left == margin
            &&& (position.preset == PositionPreset::TopRight || position.preset
                == PositionPreset::BottomRight) ==> right == margin
            &&& (position.preset == PositionPreset::TopCenter || position.preset
                == PositionPreset::Center) ==> within_one(left, right)
            &&& (position.preset == PositionPreset::TopLeft || position.preset
                == PositionPreset::TopCenter || position.preset == PositionPreset::TopRight) ==> top
                == margin
            &&& (position.preset == PositionPreset::BottomLeft || position.preset
                == PositionPreset::BottomRight) ==> bottom == margin
            &&& position.preset == PositionPreset::Center ==> within_one(top, bottom)
        }),
{
    let mw = m.width;
    let mh = m.height;
    assert(mw <= 0x7fff_ffff ==> (mw as i32) as int == mw as int) by (bit_vector);
    assert(mh <= 0x7fff_ffff ==> (mh as i32) as int == mh as int) by (bit_vector);
}

} // verus!
