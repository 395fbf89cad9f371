//! Screens and the space that docks reserve on them.
use vstd::prelude::*;

use crate::models::{BBox, DockArea, Screen, Xyhw};

verus! {

pub open spec fn fits_i32(v: int) -> bool {
    i32::MIN <= v <= i32::MAX
}

/// Whether a point lies in a box, borders included.
pub open spec fn bbox_contains_point(b: BBox, x: int, y: int) -> bool {
    b.x <= x <= b.x + b.width && b.y <= y <= b.y + b.height
}

/// The point of a screen that a dock area is anchored to: the first reserved edge
/// (top, bottom, left, right) decides; an area that reserves nothing has none.
pub open spec fn dock_anchor(d: DockArea, b: BBox, screens_area: (i32, i32)) -> Option<(int, int)> {
    if d.top > 0 {
        Some((d.top_start_x as int, b.y as int))
    } else if d.bottom > 0 {
        Some((d.bottom_start_x as int, screens_area.0 - d.bottom))
    } else if d.left > 0 {
        Some((b.x as int, d.left_start_y as int))
    } else if d.right > 0 {
        Some((screens_area.1 - d.right, d.right_start_y as int))
    } else {
        None
    }
}

/// Whether the sums in a box fit in 32 bits.
pub open spec fn bbox_fits(b: BBox) -> bool {
    fits_i32(b.x + b.width) && fits_i32(b.y + b.height)
}

impl Screen {
    /// Whether a point lies on this screen, borders included.
    pub fn contains_point(&self, x: i32, y: i32) -> (r: bool)
        requires
            bbox_fits(self.bbox),
        ensures
            r == bbox_contains_point(self.bbox, x as int, y as int),
    {
        let b = self.bbox;
        let max_x = b.x + b.width;
        let max_y = b.y + b.height;
        (b.x <= x && x <= max_x) && (b.y <= y && y <= max_y)
    }

    /// Whether a dock area belongs to this screen: its anchor lies on the screen.
    /// `screens_area` is the (height, width) of all screens together.
    pub fn contains_dock_area(&self, dock_area: DockArea, screens_area: (i32, i32)) -> (r: bool)
        requires
            bbox_fits(self.bbox),
            fits_i32(screens_area.0 - dock_area.bottom),
            fits_i32(screens_area.1 - dock_area.right),
        ensures
            r == (dock_anchor(dock_area, self.bbox, screens_area) matches Some(p)
                && bbox_contains_point(self.bbox, p.0, p.1)),
    {
        if dock_area.top > 0 {
            return self.contains_point(dock_area.top_start_x, self.bbox.y);
        }
        if dock_area.bottom > 0 {
            return self.contains_point(dock_area.bottom_start_x, screens_area.0 - dock_area.bottom);
        }
        if dock_area.left > 0 {
            return self.contains_point(self.bbox.x, dock_area.left_start_y);
        }
        if dock_area.right > 0 {
            return self.contains_point(screens_area.1 - dock_area.right, dock_area.right_start_y);
        }
        false
    }
}

/// A geometry with the default size limits.
pub open spec fn geometry(x: int, y: int, h: int, w: int) -> Xyhw {
    Xyhw {
        x: x as i32,
        y: y as i32,
        h: h as i32,
        w: w as i32,
        minw: Xyhw::spec_default().minw,
        maxw: Xyhw::spec_default().maxw,
        minh: Xyhw::spec_default().minh,
        maxh: Xyhw::spec_default().maxh,
    }
}

/// The space that a dock area reserves on a screen: the first reserved edge
/// (top, bottom, left, right) decides.
pub open spec fn dock_space(d: DockArea, screens_height: int, screens_width: int, b: BBox) -> Option<(int, int, int, int)> {
    if d.top > 0 {
        Some((d.top_start_x as int, b.y as int, d.top - b.y, d.top_end_x - d.top_start_x))
    } else if d.bottom > 0 {
        Some((
            d.bottom_start_x as int,
            screens_height - d.bottom,
            d.bottom - (screens_height - (b.y + b.height)),
            d.bottom_end_x - d.bottom_start_x,
        ))
    } else if d.left > 0 {
        Some((b.x as int, d.left_start_y as int, d.left_end_y - d.left_start_y, d.left - b.x))
    } else if d.right > 0 {
        Some((
            screens_width - d.right,
            d.right_start_y as int,
            d.right_end_y - d.right_start_y,
            d.right - (screens_width - (b.x + b.width)),
        ))
    } else {
        None
    }
}

/// Whether every quantity in the space of a dock area fits in 32 bits.
pub open spec fn dock_space_fits(d: DockArea, screens_height: int, screens_width: int, b: BBox) -> bool {
    &&& bbox_fits(b)
    &&& fits_i32(d.top - b.y)
    &&& fits_i32(d.top_end_x - d.top_start_x)
    &&& fits_i32(screens_height - d.bottom)
    &&& fits_i32(screens_height - (b.y + b.height))
    &&& fits_i32(d.bottom - (screens_height - (b.y + b.height)))
    &&& fits_i32(d.bottom_end_x - d.bottom_start_x)
    &&& fits_i32(d.left_end_y - d.left_start_y)
    &&& fits_i32(d.left - b.x)
    &&& fits_i32(screens_width - d.right)
    &&& fits_i32(screens_width - (b.x + b.width))
    &&& fits_i32(d.right_end_y - d.right_start_y)
    &&& fits_i32(d.right - (screens_width - (b.x + b.width)))
}

impl DockArea {
    /// The geometry that this dock area reserves on `screen`, if it reserves any.
    pub fn as_xyhw(&self, screens_height: i32, screens_width: i32, screen: &Screen) -> (r: Option<Xyhw>)
        requires
            dock_space_fits(*self, screens_height as int, screens_width as int, screen.bbox),
        ensures
            match dock_space(*self, screens_height as int, screens_width as int, screen.bbox) {
                None => r is None,
                Some(s) => r == Some(geometry(s.0, s.1, s.2, s.3)),
            },
    {
        let b = screen.bbox;
        let d = *self;
        let dflt = Xyhw::default();
        if d.top > 0 {
            return Some(Xyhw { x: d.top_start_x, y: b.y, h: d.top - b.y, w: d.top_end_x - d.top_start_x, ..dflt });
        }
        if d.bottom > 0 {
            return Some(Xyhw {
                x: d.bottom_start_x,
                y: screens_height - d.bottom,
                h: d.bottom - (screens_height - (b.y + b.height)),
                w: d.bottom_end_x - d.bottom_start_x,
                ..dflt
            });
        }
        if d.left > 0 {
            return Some(Xyhw { x: b.x, y: d.left_start_y, h: d.left_end_y - d.left_start_y, w: d.left - b.x, ..dflt });
        }
        if d.right > 0 {
            return Some(Xyhw {
                x: screens_width - d.right,
                y: d.right_start_y,
                h: d.right_end_y - d.right_start_y,
                w: d.right - (screens_width - (b.x + b.width)),
                ..dflt
            });
        }
        None
    }
}

/// The far edges of all screens: the largest bottom (`y + height`) and the
/// largest right (`x + width`), each at least 0.
pub open spec fn area_dimensions(screens: Seq<Screen>) -> (int, int)
    decreases screens.len(),
{
    if screens.len() == 0 {
        (0, 0)
    } else {
        let rest = area_dimensions(screens.drop_last());
        let s = screens.last();
        (
            if rest.0 >= s.bbox.height + s.bbox.y { rest.0 } else { s.bbox.height + s.bbox.y },
            if rest.1 >= s.bbox.width + s.bbox.x { rest.1 } else { s.bbox.width + s.bbox.x },
        )
    }
}

/// Returns the (height, width) that all screens together span from the origin.
pub fn get_screens_area_dimensions(screens: &[Screen]) -> (r: (i32, i32))
    requires
        forall|i: int| 0 <= i < screens@.len() ==> bbox_fits(#[trigger] screens@[i].bbox),
    ensures
        r.0 as int == area_dimensions(screens@).0,
        r.1 as int == area_dimensions(screens@).1,
{
    let mut height: i32 = 0;
    let mut width: i32 = 0;
    let mut i: usize = 0;
    while i < screens.len()
        invariant
            i <= screens@.len(),
            forall|j: int| 0 <= j < screens@.len() ==> bbox_fits(#[trigger] screens@[j].bbox),
            height as int == area_dimensions(screens@.subrange(0, i as int)).0,
            width as int == area_dimensions(screens@.subrange(0, i as int)).1,
        decreases screens@.len() - i,
    {
        assert(screens@.subrange(0, i + 1).drop_last() =~= screens@.subrange(0, i as int));
        let b = screens[i].bbox;
        let bottom = b.height + b.y;
        let right = b.width + b.x;
        height = if height >= bottom { height } else { bottom };
        width = if width >= right { width } else { right };
        i = i + 1;
    }
    assert(screens@.subrange(0, i as int) =~= screens@);
    (height, width)
}

} // verus!
