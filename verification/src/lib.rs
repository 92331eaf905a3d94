//! Elements of a retained-mode user interface, composed from a shared base.
//!
//! A leaf such as [`Svg`] owns a [`Div`] and forwards the lifecycle and every
//! capability to it; the states of the interaction and focus axes are type
//! parameters, so a capability that an element lacks cannot be called on it.

pub mod color;
pub mod element;
pub mod elements;
pub mod focus;
pub mod geometry;
pub mod interactive;
pub mod shared_string;
pub mod style;
pub mod styled;
pub mod window;

pub use crate::color::{black, hsla, Hsla};
pub use crate::element::{
    AnyElement, Element, ElementId, IntoAnyElement, Listener, Phase, Progress, StageCall,
};
pub use crate::elements::div::{div, Div, DivState};
pub use crate::elements::svg::{svg, Svg};
pub use crate::focus::{
    ElementFocus, FocusDisabled, FocusEnabled, FocusHandle, FocusListeners, Focusable,
};
pub use crate::geometry::{point, px, size, Bounds, Pixels, Point, Size};
pub use crate::interactive::{
    ElementInteraction, InteractiveElementState, StatefulInteraction, StatefulInteractive,
    StatelessInteraction, StatelessInteractive,
};
pub use crate::shared_string::SharedString;
pub use crate::style::{Length, Style, StyleRefinement, TextStyleRefinement};
pub use crate::styled::Styled;
pub use crate::window::{DrawError, FocusId, FocusState, LayoutId, Primitive, ViewContext};
