//! Computed styles and the sparse refinements that are merged into them.

use crate::color::Hsla;
use crate::geometry::{Pixels, Size};
use vstd::prelude::*;

verus! {

/// The extent asked of the layout engine along one axis.
#[derive(Clone, Copy, Debug, PartialEq, Eq)]
pub enum Length {
    Auto,
    Px(Pixels),
}

/// Overrides for text: absent fields leave the style as it is.
#[derive(Clone, Copy, Debug, PartialEq, Eq)]
pub struct TextStyleRefinement {
    pub color: Option<Hsla>,
}

/// A sparse set of overrides. Merging one into a style replaces exactly the
/// fields that the refinement sets.
#[derive(Clone, Copy, Debug, PartialEq, Eq)]
pub struct StyleRefinement {
    pub size: Size<Option<Length>>,
    pub background: Option<Hsla>,
    pub text: TextStyleRefinement,
}

/// The style an element is laid out and painted with. The foreground color
/// stays optional after the cascade: no layer may have set one.
#[derive(Clone, Copy, Debug, PartialEq, Eq)]
pub struct Style {
    pub size: Size<Length>,
    pub background: Option<Hsla>,
    pub text: TextStyleRefinement,
}

/// `over` where it is set, else `under`.
pub open spec fn overridden<T>(under: Option<T>, over: Option<T>) -> Option<T> {
    if over is Some {
        over
    } else {
        under
    }
}

impl StyleRefinement {
    /// The refinement that overrides nothing.
    pub open spec fn empty() -> StyleRefinement {
        StyleRefinement {
            size: Size { width: None, height: None },
            background: None,
            text: TextStyleRefinement { color: None },
        }
    }
}

impl Default for StyleRefinement {
    fn default() -> (r: StyleRefinement)
        ensures
            r == StyleRefinement::empty(),
    {
        StyleRefinement {
            size: Size { width: None, height: None },
            background: None,
            text: TextStyleRefinement { color: None },
        }
    }
}

impl Style {
    /// The style before any refinement: automatic size, no background, no
    /// foreground color.
    pub open spec fn initial() -> Style {
        Style {
            size: Size { width: Length::Auto, height: Length::Auto },
            background: None,
            text: TextStyleRefinement { color: None },
        }
    }

    /// This style with the fields that `refinement` sets replaced.
    pub open spec fn refined(self, refinement: StyleRefinement) -> Style {
        Style {
            size: Size {
                width: match refinement.size.width {
                    Some(w) => w,
                    None => self.size.width,
                },
                height: match refinement.size.height {
                    Some(h) => h,
                    None => self.size.height,
                },
            },
            background: overridden(self.background, refinement.background),
            text: TextStyleRefinement {
                color: overridden(self.text.color, refinement.text.color),
            },
        }
    }

    pub fn refine(&mut self, refinement: &StyleRefinement)
        ensures
            *final(self) == old(self).refined(*refinement),
    {
        if let Some(width) = refinement.size.width {
            self.size.width = width;
        }
        if let Some(height) = refinement.size.height {
            self.size.height = height;
        }
        if refinement.background.is_some() {
            self.background = refinement.background;
        }
        if refinement.text.color.is_some() {
            self.text.color = refinement.text.color;
        }
    }
}

impl Default for Style {
    fn default() -> (r: Style)
        ensures
            r == Style::initial(),
    {
        Style {
            size: Size { width: Length::Auto, height: Length::Auto },
            background: None,
            text: TextStyleRefinement { color: None },
        }
    }
}

} // verus!
