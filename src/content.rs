//! What a text object holds: its font, its typesetting and an editing snapshot.

use vstd::prelude::*;

use crate::geometry::Point;
use crate::options::Rgba;

verus! {

/// A font, named by family and style.
#[derive(Debug)]
pub struct Font {
    pub family: String,
    pub style: String,
}

impl Font {
    pub fn new(family: String, style: String) -> (r: Font)
        ensures
            r.family == family,
            r.style == style,
    {
        Font { family, style }
    }

    /// A copy equal to `self`.
    pub fn duplicate(&self) -> (r: Font)
        ensures
            r == *self,
    {
        Font { family: self.family.clone(), style: self.style.clone() }
    }
}

/// How a text run is laid out. Sizes are in canvas units and the two ratios
/// in hundredths. A text box with no maximum width (or height) grows with its
/// content in that direction.
#[derive(Clone, Copy, Debug, PartialEq, Eq, Structural)]
pub struct Typesetting {
    pub font_size: u32,
    pub line_height_ratio: u32,
    pub character_spacing: u32,
    pub max_width: Option<u64>,
    pub max_height: Option<u64>,
}

/// A snapshot of a text object being edited.
#[derive(Debug)]
pub struct EditingText {
    pub text: String,
    pub font: Font,
    pub typesetting: Typesetting,
    /// Fill color; `None` is no fill.
    pub color: Option<Rgba>,
    /// Placement of the text's origin on the canvas.
    pub transform: Point,
}

impl EditingText {
    /// A copy equal to `self`.
    pub fn duplicate(&self) -> (r: EditingText)
        ensures
            r == *self,
    {
        EditingText {
            text: self.text.clone(),
            font: self.font.duplicate(),
            typesetting: self.typesetting,
            color: self.color,
            transform: self.transform,
        }
    }
}

} // verus!
