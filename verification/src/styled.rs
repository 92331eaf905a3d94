//! The styling capability, which every element has.

use crate::style::StyleRefinement;
use vstd::prelude::*;

verus! {

/// An element that can be styled. There is one refinement per element, and
/// `style` lends that very refinement: what a caller writes through the
/// reference is what the element is styled with from then on.
pub trait Styled: Sized {
    /// The refinement that the element lays over the initial style.
    spec fn style_refinement(&self) -> StyleRefinement;

    fn style(&mut self) -> (r: &mut StyleRefinement)
        ensures
            *r == old(self).style_refinement(),
            final(self).style_refinement() == *final(r),
    ;
}

} // verus!
