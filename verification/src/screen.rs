//! Frame geometry: where the frame's regions lie on the screen.
//!
//! The screen is split vertically into a header band and a band holding the
//! gauge panel; the gauge itself is drawn in a fixed-height strip at the top
//! of the lower band. The split is computed by ratatui's layout solver,
//! reached through one trusted wrapper; the geometry derived from it is
//! verified here.

use ratatui::layout::{Constraint, Layout, Rect};
use vstd::prelude::*;

verus! {

/// Share of the screen's height given to the header band, in percent.
pub const HEADER_PERCENT: u16 = 20;

/// Share of the screen's height given to the gauge band, in percent.
pub const GAUGE_PERCENT: u16 = 80;

/// Height of the strip the gauge is drawn in, in rows.
pub const GAUGE_HEIGHT: u16 = 3;

/// A rectangular region of the screen, in character cells.
#[derive(Clone, Copy, Debug, PartialEq, Eq, Structural)]
pub struct ScreenRect {
    pub x: u16,
    pub y: u16,
    pub width: u16,
    pub height: u16,
}

/// The two bands that ratatui's layout solver cuts a region into when it is
/// split vertically by two percentage constraints.
pub uninterp spec fn vsplit_of(area: ScreenRect, top_percent: u16, bottom_percent: u16) -> (
    ScreenRect,
    ScreenRect,
);

/// Relies on ratatui's `Layout::areas` for a vertical split by two
/// percentage constraints. The solver's outcome depends only on the layout
/// and the area (ratatui itself caches it under that key), and a vertical
/// split only moves the horizontal cuts: every band keeps the area's `x` and
/// `width`.
#[verifier::external_body]
fn vsplit(area: ScreenRect, top_percent: u16, bottom_percent: u16) -> (r: (ScreenRect, ScreenRect))
    requires
        top_percent as int + bottom_percent as int == 100,
    ensures
        r == vsplit_of(area, top_percent, bottom_percent),
        r.0.x == area.x,
        r.0.width == area.width,
        r.1.x == area.x,
        r.1.width == area.width,
{
    let rect = Rect { x: area.x, y: area.y, width: area.width, height: area.height };
    let layout = Layout::vertical([
        Constraint::Percentage(top_percent),
        Constraint::Percentage(bottom_percent),
    ]);
    let [top, bottom] = layout.areas(rect);
    (
        ScreenRect { x: top.x, y: top.y, width: top.width, height: top.height },
        ScreenRect { x: bottom.x, y: bottom.y, width: bottom.width, height: bottom.height },
    )
}

/// Where the frame's regions lie within one screen area.
pub struct FrameGeometry {
    /// The band across the top that holds the heading.
    pub header: ScreenRect,
    /// The strip the gauge panel is drawn in.
    pub gauge: ScreenRect,
}

/// Compute the frame's regions for a screen area: the header band is the
/// upper band of the percentage split, and the gauge strip sits at the top
/// of the lower band, spanning its width at a fixed height.
pub fn frame_geometry(area: ScreenRect) -> (g: FrameGeometry)
    ensures
        g.header == vsplit_of(area, HEADER_PERCENT, GAUGE_PERCENT).0,
        g.header.x == area.x,
        g.header.width == area.width,
        g.gauge.x == area.x,
        g.gauge.y == vsplit_of(area, HEADER_PERCENT, GAUGE_PERCENT).1.y,
        g.gauge.width == area.width,
        g.gauge.height == GAUGE_HEIGHT,
{
    let (header, lower) = vsplit(area, HEADER_PERCENT, GAUGE_PERCENT);
    let gauge = ScreenRect { x: lower.x, y: lower.y, width: lower.width, height: GAUGE_HEIGHT };
    FrameGeometry { header, gauge }
}

} // verus!
