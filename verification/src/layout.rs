//! Where on the screen each panel goes.
use vstd::prelude::*;

verus! {

/// A rectangle of character cells.
#[derive(Clone, Copy, PartialEq, Eq, Structural, Debug)]
pub struct Area {
    pub x: u16,
    pub y: u16,
    pub width: u16,
    pub height: u16,
}

impl Area {
    /// Whether the rectangle ends within the coordinates that there are.
    pub open spec fn fits(self) -> bool {
        self.x + self.width <= u16::MAX && self.y + self.height <= u16::MAX
    }
}

/// How much of `size` cells goes to the second of two parts, where the first
/// wants at least `least` cells and all that is left over, and the second exactly
/// `fixed`. The first wish ranks above the second.
pub open spec fn second_share(size: int, least: int, fixed: int) -> int {
    if size >= least + fixed {
        fixed
    } else if size >= least {
        size - least
    } else {
        0
    }
}

/// An area cut into an upper and a lower part.
pub open spec fn cut_rows(area: Area, least: int, fixed: int) -> (Area, Area) {
    let low = second_share(area.height as int, least, fixed);
    (
        Area { height: (area.height - low) as u16, ..area },
        Area { y: (area.y + area.height - low) as u16, height: low as u16, ..area },
    )
}

/// An area cut into a left and a right part.
pub open spec fn cut_columns(area: Area, least: int, fixed: int) -> (Area, Area) {
    let right = second_share(area.width as int, least, fixed);
    (
        Area { width: (area.width - right) as u16, ..area },
        Area { x: (area.x + area.width - right) as u16, width: right as u16, ..area },
    )
}

/// `ratatui::layout::Layout::vertical` with the constraints `Min` and `Length`, and
/// its `split`. `Min` ranks above `Length`, and it alone of the two takes up what
/// is left over, so that the two parts fill the area.
#[verifier::external_body]
fn split_rows(area: Area, least: u16, fixed: u16) -> (r: (Area, Area))
    requires
        area.fits(),
        least <= i16::MAX,
    ensures
        r == cut_rows(area, least as int, fixed as int),
{
    let all = ratatui::layout::Rect::new(area.x, area.y, area.width, area.height);
    let parts = ratatui::layout::Layout::vertical(
        [ratatui::layout::Constraint::Min(least), ratatui::layout::Constraint::Length(fixed)],
    ).split(all);
    let (a, b) = (parts[0], parts[1]);
    (
        Area { x: a.x, y: a.y, width: a.width, height: a.height },
        Area { x: b.x, y: b.y, width: b.width, height: b.height },
    )
}

/// `ratatui::layout::Layout::horizontal` with the constraints `Min` and `Length`,
/// and its `split`. `Min` ranks above `Length`, and it alone of the two takes up
/// what is left over, so that the two parts fill the area.
#[verifier::external_body]
fn split_columns(area: Area, least: u16, fixed: u16) -> (r: (Area, Area))
    requires
        area.fits(),
        least <= i16::MAX,
    ensures
        r == cut_columns(area, least as int, fixed as int),
{
    let all = ratatui::layout::Rect::new(area.x, area.y, area.width, area.height);
    let parts = ratatui::layout::Layout::horizontal(
        [ratatui::layout::Constraint::Min(least), ratatui::layout::Constraint::Length(fixed)],
    ).split(all);
    let (a, b) = (parts[0], parts[1]);
    (
        Area { x: a.x, y: a.y, width: a.width, height: a.height },
        Area { x: b.x, y: b.y, width: b.width, height: b.height },
    )
}

/// The panels of a frame.
#[derive(Clone, Copy, PartialEq, Eq, Structural, Debug)]
pub enum Panels {
    /// The globe has the whole screen but for one line.
    Maximized { globe: Area, status: Area },
    /// The globe with the status under it, beside the list and the controls.
    Windowed { globe: Area, status: Area, list: Area, controls: Area },
}

/// The panels of a frame.
pub open spec fn panels_of(zoom: bool, area: Area) -> Panels {
    if zoom {
        let (globe, status) = cut_rows(area, 3, 1);
        Panels::Maximized { globe, status }
    } else {
        let (left, side) = cut_columns(area, 40, 32);
        let (globe, status) = cut_rows(left, 8, 4);
        let (list, controls) = cut_rows(side, 6, 15);
        Panels::Windowed { globe, status, list, controls }
    }
}

/// The panels of a frame.
pub fn panels(zoom: bool, area: Area) -> (r: Panels)
    requires
        area.fits(),
    ensures
        r == panels_of(zoom, area),
{
    if zoom {
        let (globe, status) = split_rows(area, 3, 1);
        Panels::Maximized { globe, status }
    } else {
        let (left, side) = split_columns(area, 40, 32);
        let (globe, status) = split_rows(left, 8, 4);
        let (list, controls) = split_rows(side, 6, 15);
        Panels::Windowed { globe, status, list, controls }
    }
}

/// The smaller of two numbers.
pub open spec fn least(a: int, b: int) -> int {
    if a < b {
        a
    } else {
        b
    }
}

/// The larger of two numbers.
pub open spec fn most(a: int, b: int) -> int {
    if a < b {
        b
    } else {
        a
    }
}

/// A size less a margin, but not below zero.
pub open spec fn shrunk(size: int, by: int) -> int {
    most(size - by, 0)
}

/// How wide the filter menu is: 46 cells, less on a narrow screen, but at least 20.
pub open spec fn popup_width(width: int) -> int {
    most(least(46, shrunk(width, 4)), 20)
}

/// How high the filter menu is: four fifths of the screen, a margin left, but at
/// least 6 cells.
pub open spec fn popup_height(height: int) -> int {
    most(least(height * 4 / 5, shrunk(height, 2)), 6)
}

/// The filter menu's place: the middle of the screen.
pub open spec fn popup_area(area: Area) -> Area {
    let w = popup_width(area.width as int);
    let h = popup_height(area.height as int);
    Area {
        x: (area.x + shrunk(area.width as int, w) / 2) as u16,
        y: (area.y + shrunk(area.height as int, h) / 2) as u16,
        width: w as u16,
        height: h as u16,
    }
}

/// The filter menu's place: the middle of the screen. On a screen smaller than
/// the menu's least size it reaches beyond the edge.
pub fn popup(area: Area) -> (r: Area)
    requires
        area.x + shrunk(area.width as int, popup_width(area.width as int)) / 2 <= u16::MAX,
        area.y + shrunk(area.height as int, popup_height(area.height as int)) / 2 <= u16::MAX,
    ensures
        r == popup_area(area),
{
    let room: u16 = if area.width >= 4 { area.width - 4 } else { 0 };
    let narrow: u16 = if room < 46 { room } else { 46 };
    let w: u16 = if narrow < 20 { 20 } else { narrow };
    let part: u16 = (area.height as u32 * 4 / 5) as u16;
    let space: u16 = if area.height >= 2 { area.height - 2 } else { 0 };
    let low: u16 = if part < space { part } else { space };
    let h: u16 = if low < 6 { 6 } else { low };
    let beside: u16 = if area.width >= w { (area.width - w) / 2 } else { 0 };
    let above: u16 = if area.height >= h { (area.height - h) / 2 } else { 0 };
    Area { x: area.x + beside, y: area.y + above, width: w, height: h }
}

/// On a screen at least 20 cells wide and 6 high the menu is on the screen as a
/// whole, with the same margin on both sides, to a cell.
pub proof fn popup_is_centred(area: Area)
    requires
        area.fits(),
        area.width >= 20,
        area.height >= 6,
    ensures
        ({
            let p = popup_area(area);
            let left = p.x - area.x;
            let right = (area.x + area.width) - (p.x + p.width);
            let above = p.y - area.y;
            let below = (area.y + area.height) - (p.y + p.height);
            0 <= left <= right <= left + 1 && 0 <= above <= below <= above + 1
        }),
{
}

/// The two parts of an area that is cut fill it and do not overlap.
pub proof fn cutting_loses_nothing(area: Area, least: int, fixed: int)
    requires
        area.fits(),
        least >= 0,
        0 <= fixed <= u16::MAX,
    ensures
        ({
            let (top, bottom) = cut_rows(area, least, fixed);
            &&& top.y == area.y
            &&& bottom.y == top.y + top.height
            &&& top.height + bottom.height == area.height
            &&& top.fits() && bottom.fits()
        }),
        ({
            let (left, right) = cut_columns(area, least, fixed);
            &&& left.x == area.x
            &&& right.x == left.x + left.width
            &&& left.width + right.width == area.width
            &&& left.fits() && right.fits()
        }),
{
}

/// On a screen that is large enough the list and the controls stand in a column of
/// 32 cells at the right, with 15 lines for the controls under the list, and the
/// status takes four lines under the globe. The four panels cover the screen and do
/// not overlap.
pub proof fn window_has_four_panels(area: Area)
    requires
        area.fits(),
        area.width >= 72,
        area.height >= 21,
    ensures
        panels_of(false, area) matches Panels::Windowed { globe, status, list, controls } && {
            &&& globe.x == area.x && globe.y == area.y
            &&& globe.width + list.width == area.width && list.width == 32
            &&& globe.height + status.height == area.height && status.height == 4
            &&& status.x == area.x && status.width == globe.width
            &&& status.y == globe.y + globe.height
            &&& list.x == globe.x + globe.width && list.y == area.y
            &&& list.height + controls.height == area.height && controls.height == 15
            &&& controls.x == list.x && controls.width == list.width
            &&& controls.y == list.y + list.height
        },
{
}

/// The maximized globe has the whole screen but for one line at the bottom.
pub proof fn maximized_globe_leaves_one_line(area: Area)
    requires
        area.fits(),
        area.height >= 4,
    ensures
        panels_of(true, area) matches Panels::Maximized { globe, status } && {
            &&& globe.x == area.x && globe.y == area.y && globe.width == area.width
            &&& status.x == area.x && status.width == area.width && status.height == 1
            &&& globe.height + 1 == area.height
            &&& status.y == globe.y + globe.height
        },
{
}

/// On a smaller screen the globe and the list go before what stands beside and below
/// them: they have their least size before the others have any.
pub proof fn globe_and_list_go_first(area: Area)
    requires
        area.fits(),
    ensures
        panels_of(false, area) matches Panels::Windowed { globe, status, list, controls } && {
            &&& list.width > 0 ==> globe.width >= 40
            &&& globe.width > 40 ==> list.width == 32
            &&& status.height > 0 ==> globe.height >= 8
            &&& globe.height > 8 ==> status.height == 4
            &&& controls.height > 0 ==> list.height >= 6
            &&& list.height > 6 ==> controls.height == 15
            &&& globe.width + list.width == area.width
            &&& globe.height + status.height == area.height
            &&& list.height + controls.height == area.height
        },
        area.height >= 8 && area.width >= 40 ==> panels_of(false, area)->Windowed_globe.height >= 8
            && panels_of(false, area)->Windowed_globe.width >= 40,
        panels_of(true, area) matches Panels::Maximized { globe, status } && {
            &&& status.height > 0 ==> globe.height >= 3
            &&& globe.height > 3 ==> status.height == 1
            &&& globe.height + status.height == area.height
        },
{
}

/// The menu is 46 cells wide where that leaves a margin of two on each side, as wide
/// as such a margin allows where it does not, and never below 20. It is four fifths
/// of the screen high, rounded down, never below 6.
pub proof fn popup_has_its_size(area: Area)
    requires
        area.fits(),
    ensures
        ({
            let p = popup_area(area);
            let fifths = area.height * 4;
            &&& area.width >= 50 ==> p.width == 46
            &&& 24 <= area.width < 50 ==> p.width == area.width - 4
            &&& area.width < 24 ==> p.width == 20
            &&& area.height >= 10 ==> p.height * 5 <= fifths < (p.height + 1) * 5
            &&& 8 <= area.height < 10 ==> p.height == area.height - 2
            &&& area.height < 8 ==> p.height == 6
        }),
{
}

} // verus!
