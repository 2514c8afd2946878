//! Geometry of the centered confirmation overlay.

use vstd::prelude::*;

verus! {

/// An axis-aligned terminal region.
#[derive(Clone, Copy, Debug, PartialEq, Eq, Structural)]
pub struct Rect {
    pub x: u16,
    pub y: u16,
    pub width: u16,
    pub height: u16,
}

/// The sub-rectangle of `area` covering the given percentages of its width
/// and height, centered in it.
pub open spec fn spec_centered_rect(percent_x: u16, percent_y: u16, area: Rect) -> Rect {
    let w = area.width * percent_x / 100;
    let h = area.height * percent_y / 100;
    Rect {
        x: (area.x + (area.width - w) / 2) as u16,
        y: (area.y + (area.height - h) / 2) as u16,
        width: w as u16,
        height: h as u16,
    }
}

/// Computes the centered overlay region sized as percentages of the
/// viewport.
pub fn centered_rect(percent_x: u16, percent_y: u16, area: Rect) -> (r: Rect)
    requires
        percent_x <= 100,
        percent_y <= 100,
        area.x + area.width <= u16::MAX,
        area.y + area.height <= u16::MAX,
    ensures
        r == spec_centered_rect(percent_x, percent_y, area),
{
    proof {
        assert(area.width * percent_x <= area.width * 100) by (nonlinear_arith)
            requires
                percent_x <= 100,
        ;
        assert(area.width * 100 / 100 == area.width) by (nonlinear_arith);
        assert(area.width * percent_x / 100 <= area.width * 100 / 100) by (nonlinear_arith)
            requires
                area.width * percent_x <= area.width * 100,
        ;
        assert(area.height * percent_y <= area.height * 100) by (nonlinear_arith)
            requires
                percent_y <= 100,
        ;
        assert(area.height * 100 / 100 == area.height) by (nonlinear_arith);
        assert(area.height * percent_y / 100 <= area.height * 100 / 100) by (nonlinear_arith)
            requires
                area.height * percent_y <= area.height * 100,
        ;
    }
    let w = ((area.width as u32) * (percent_x as u32) / 100) as u16;
    let h = ((area.height as u32) * (percent_y as u32) / 100) as u16;
    Rect {
        x: area.x + (area.width - w) / 2,
        y: area.y + (area.height - h) / 2,
        width: w,
        height: h,
    }
}

} // verus!
