//! The focus capability of an element: absent, or enabled with listeners and
//! the styles of the three focus states.

use crate::element::{Element, Listener};
use crate::style::{Style, StyleRefinement};
use crate::window::{FocusId, Frame, ViewContext};
use vstd::prelude::*;

verus! {

/// The region of the window through which an element takes part in focus.
#[derive(Clone, Copy, Debug, PartialEq, Eq, Hash)]
pub struct FocusHandle {
    pub id: FocusId,
}

/// The listeners of an element for focus events.
pub type FocusListeners<V> = Vec<Listener<V>>;

/// The element takes no part in focus.
#[derive(Clone, Copy, Debug, PartialEq, Eq, Default)]
pub struct FocusDisabled;

/// The element takes part in focus through `focus_handle`.
#[derive(Debug)]
pub struct FocusEnabled<V> {
    pub focus_handle: Option<FocusHandle>,
    pub focus_listeners: FocusListeners<V>,
    /// Laid over the style while the element itself is focused.
    pub focus_style: StyleRefinement,
    /// Laid over the style while the focus is on the element or inside it.
    pub focus_in_style: StyleRefinement,
    /// Laid over the style while the element is focused or inside the
    /// focused element.
    pub in_focus_style: StyleRefinement,
}

impl<V> FocusEnabled<V> {
    /// Focus through `handle`, with no listeners and no styles yet.
    pub open spec fn is_fresh(&self, handle: FocusHandle) -> bool {
        &&& self.focus_handle == Some(handle)
        &&& self.focus_listeners@ == Seq::<Listener<V>>::empty()
        &&& self.focus_style == StyleRefinement::empty()
        &&& self.focus_in_style == StyleRefinement::empty()
        &&& self.in_focus_style == StyleRefinement::empty()
    }

    pub fn new(handle: FocusHandle) -> (r: Self)
        ensures
            r.is_fresh(handle),
    {
        FocusEnabled {
            focus_handle: Some(handle),
            focus_listeners: Vec::new(),
            focus_style: StyleRefinement::default(),
            focus_in_style: StyleRefinement::default(),
            in_focus_style: StyleRefinement::default(),
        }
    }

    /// `style` with the styles of the focus states that hold in `frame`
    /// laid over it: focus inside, then inside the focus, then focused.
    pub open spec fn refined(&self, style: Style, frame: Frame) -> Style {
        match self.focus_handle {
            Some(handle) => {
                let inside = if frame.contains_focused(handle.id) {
                    style.refined(self.focus_in_style)
                } else {
                    style
                };
                let within = if frame.within_focused(handle.id) {
                    inside.refined(self.in_focus_style)
                } else {
                    inside
                };
                if frame.is_focused(handle.id) {
                    within.refined(self.focus_style)
                } else {
                    within
                }
            },
            None => style,
        }
    }
}

/// One of the two states of the focus axis.
pub trait ElementFocus<V>: Sized {
    /// The focus data, where focus is enabled.
    spec fn focusable(&self) -> Option<FocusEnabled<V>>;

    fn as_focusable(&self) -> (r: Option<&FocusEnabled<V>>)
        ensures
            match r {
                Some(enabled) => self.focusable() == Some(*enabled),
                None => self.focusable() is None,
            },
    ;
}

impl<V> ElementFocus<V> for FocusDisabled {
    open spec fn focusable(&self) -> Option<FocusEnabled<V>> {
        None
    }

    fn as_focusable(&self) -> (r: Option<&FocusEnabled<V>>) {
        None
    }
}

impl<V> ElementFocus<V> for FocusEnabled<V> {
    open spec fn focusable(&self) -> Option<FocusEnabled<V>> {
        Some(*self)
    }

    fn as_focusable(&self) -> (r: Option<&FocusEnabled<V>>) {
        Some(self)
    }
}

/// `style` with the focus layers of `focus` laid over it; unchanged where
/// focus is disabled.
pub open spec fn refined_by_focus<V, F: ElementFocus<V>>(
    focus: F,
    style: Style,
    frame: Frame,
) -> Style {
    match focus.focusable() {
        Some(enabled) => enabled.refined(style, frame),
        None => style,
    }
}

/// Lays the focus layers of `focus` over `style`.
pub fn refine_style<V, F: ElementFocus<V>>(focus: &F, style: &mut Style, cx: &ViewContext<V>)
    ensures
        *final(style) == refined_by_focus(*focus, *old(style), cx@),
{
    if let Some(enabled) = focus.as_focusable() {
        if let Some(handle) = enabled.focus_handle {
            if cx.contains_focused(handle.id) {
                style.refine(&enabled.focus_in_style);
            }
            if cx.within_focused(handle.id) {
                style.refine(&enabled.in_focus_style);
            }
            if cx.is_focused(handle.id) {
                style.refine(&enabled.focus_style);
            }
        }
    }
}

/// An element on which focus listeners and the styles of the focus states
/// can be set: only one whose focus is enabled.
pub trait Focusable: Element {
    /// The focus data of the element.
    spec fn focus(&self) -> FocusEnabled<Self::ViewState>;

    fn focus_listeners(&mut self) -> (r: &mut FocusListeners<Self::ViewState>)
        ensures
            *r == old(self).focus().focus_listeners,
            final(self).focus() == (FocusEnabled {
                focus_listeners: *final(r),
                ..old(self).focus()
            }),
    ;

    fn set_focus_style(&mut self, style: StyleRefinement)
        ensures
            final(self).focus() == (FocusEnabled { focus_style: style, ..old(self).focus() }),
    ;

    fn set_focus_in_style(&mut self, style: StyleRefinement)
        ensures
            final(self).focus() == (FocusEnabled { focus_in_style: style, ..old(self).focus() }),
    ;

    fn set_in_focus_style(&mut self, style: StyleRefinement)
        ensures
            final(self).focus() == (FocusEnabled { in_focus_style: style, ..old(self).focus() }),
    ;
}

} // verus!
