//! The document the views look at: its bounds, its page format and its background.
use vstd::prelude::*;
use crate::geometry::{coord_ok, Point, Rect, COORD_MAX, UNIT};

verus! {

/// The pattern printed on the pages.
#[derive(Clone, Copy, Debug, PartialEq, Eq, Structural)]
pub enum PatternStyle {
    /// No pattern: plain paper.
    Blank,
    Lines,
    Grid,
    Dots,
    IsometricGrid,
    IsometricDots,
}

/// The page background: a plain color and an optional pattern.
#[derive(Clone, Copy, Debug, PartialEq, Eq, Structural)]
pub struct Background {
    /// The color as `0xRRGGBBAA`.
    pub color: u32,
    pub pattern: PatternStyle,
    /// Pattern spacing in fine units, horizontally.
    pub pattern_width: i64,
    /// Pattern spacing in fine units, vertically. On ruled paper it is the line height.
    pub pattern_height: i64,
}

impl Default for Background {
    fn default() -> (b: Background)
        ensures
            b.color == 0xffff_ffffu32,
            b.pattern == PatternStyle::Dots,
            b.pattern_width == 32 * UNIT,
            b.pattern_height == 32 * UNIT,
    {
        Background {
            color: 0xffff_ffff,
            pattern: PatternStyle::Dots,
            pattern_width: 32 * UNIT,
            pattern_height: 32 * UNIT,
        }
    }
}

/// The page size in fine units. A page without area makes the whole document one page.
#[derive(Clone, Copy, Debug, PartialEq, Eq, Structural)]
pub struct Format {
    pub width: i64,
    pub height: i64,
}

impl Format {
    pub open spec fn wf(self) -> bool {
        coord_ok(self.width as int) && coord_ok(self.height as int)
    }

    /// The page size as a vector.
    pub fn size(&self) -> (p: Point)
        ensures
            p.x == self.width,
            p.y == self.height,
    {
        Point { x: self.width, y: self.height }
    }
}

impl Default for Format {
    /// A4 portrait at 96 dots per inch, in whole document units.
    fn default() -> (f: Format)
        ensures
            f.width == 794 * UNIT,
            f.height == 1123 * UNIT,
    {
        Format { width: 794 * UNIT, height: 1123 * UNIT }
    }
}

/// The document: where it lies on the plane, its page format and background.
#[derive(Clone, Copy, Debug, PartialEq, Eq, Structural)]
pub struct Document {
    pub x: i64,
    pub y: i64,
    pub width: i64,
    pub height: i64,
    pub format: Format,
    pub background: Background,
}

impl Document {
    pub open spec fn wf(self) -> bool {
        &&& coord_ok(self.x as int)
        &&& coord_ok(self.y as int)
        &&& 0 <= self.width <= COORD_MAX
        &&& 0 <= self.height <= COORD_MAX
        &&& coord_ok(self.x + self.width)
        &&& coord_ok(self.y + self.height)
        &&& self.format.wf()
    }

    pub open spec fn spec_bounds(self) -> Rect {
        Rect {
            mins: Point { x: self.x, y: self.y },
            maxs: Point { x: (self.x + self.width) as i64, y: (self.y + self.height) as i64 },
        }
    }

    /// The rectangle the document covers.
    pub fn bounds(&self) -> (r: Rect)
        requires
            self.wf(),
        ensures
            r == self.spec_bounds(),
            r.in_range(),
    {
        Rect {
            mins: Point { x: self.x, y: self.y },
            maxs: Point { x: self.x + self.width, y: self.y + self.height },
        }
    }
}

impl Document {
    /// The document `Document::default()` returns.
    pub open spec fn spec_default() -> Document {
        Document {
            x: 0,
            y: 0,
            width: (794 * UNIT) as i64,
            height: (1123 * UNIT) as i64,
            format: Format { width: (794 * UNIT) as i64, height: (1123 * UNIT) as i64 },
            background: Background {
                color: 0xffff_ffff,
                pattern: PatternStyle::Dots,
                pattern_width: (32 * UNIT) as i64,
                pattern_height: (32 * UNIT) as i64,
            },
        }
    }
}

impl Default for Document {
    /// A single page at the origin.
    fn default() -> (d: Document)
        ensures
            d == Document::spec_default(),
            d.wf(),
            d.x == 0,
            d.y == 0,
            d.format.width == 794 * UNIT,
            d.format.height == 1123 * UNIT,
            d.width == d.format.width,
            d.height == d.format.height,
            d.background.pattern == PatternStyle::Dots,
            d.background.pattern_height == 32 * UNIT,
    {
        let format = Format::default();
        Document {
            x: 0,
            y: 0,
            width: format.width,
            height: format.height,
            format,
            background: Background::default(),
        }
    }
}

} // verus!
