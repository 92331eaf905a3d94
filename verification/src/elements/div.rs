//! The base element: a styled box that carries the interaction and focus
//! capabilities of every element built on it.

use crate::element::{AnyElement, Element, ElementId, IntoAnyElement, Progress};
use crate::focus::{
    refined_by_focus, ElementFocus, FocusDisabled, FocusEnabled, FocusHandle, FocusListeners,
    Focusable,
};
use crate::geometry::{Bounds, Pixels, Point, Size};
use crate::interactive::{
    refined_by_interaction, ElementInteraction, InteractiveElementState, StatefulInteraction,
    StatefulInteractive, StatelessInteraction, StatelessInteractive,
};
use crate::style::{Style, StyleRefinement};
use crate::styled::Styled;
use crate::window::{Frame, LayoutId, ViewContext};
use std::marker::PhantomData;
use vstd::prelude::*;
use vstd::std_specs::convert::IntoSpec;

verus! {

/// The base element over the view state `V`, in the state `I` of the
/// interaction axis and the state `F` of the focus axis.
pub struct Div<V, I = StatelessInteraction<V>, F = FocusDisabled> where
    I: ElementInteraction<V>,
    F: ElementFocus<V>,
 {
    interaction: I,
    focus: F,
    base_style: StyleRefinement,
    view_state: PhantomData<V>,
}

/// What a `Div` holds.
pub struct DivView<I, F> {
    pub interaction: I,
    pub focus: F,
    pub base_style: StyleRefinement,
}

/// The state of a `Div` that the engine keeps between frames.
#[derive(Clone, Copy, Debug, PartialEq, Eq)]
pub struct DivState {
    pub interactive: InteractiveElementState,
}

impl DivState {
    /// The state of an element that has not been painted yet: not hovered,
    /// not pressed.
    pub open spec fn fresh() -> DivState {
        DivState { interactive: InteractiveElementState { hovered: false, active: false } }
    }
}

impl Default for DivState {
    fn default() -> (r: DivState)
        ensures
            r == DivState::fresh(),
    {
        DivState { interactive: InteractiveElementState::default() }
    }
}

impl<V, I: ElementInteraction<V>, F: ElementFocus<V>> View for Div<V, I, F> {
    type V = DivView<I, F>;

    closed spec fn view(&self) -> DivView<I, F> {
        DivView { interaction: self.interaction, focus: self.focus, base_style: self.base_style }
    }
}

/// A box with no style, no listeners, no identity and no part in focus.
pub fn div<V>() -> (r: Div<V, StatelessInteraction<V>, FocusDisabled>)
    ensures
        r@.base_style == StyleRefinement::empty(),
        r@.interaction.is_blank(),
{
    Div {
        interaction: StatelessInteraction::default(),
        focus: FocusDisabled,
        base_style: StyleRefinement::default(),
        view_state: PhantomData,
    }
}

impl<V, F: ElementFocus<V>> Div<V, StatelessInteraction<V>, F> {
    /// Gives the element an identity, converted from `id`. What was
    /// registered without one stays.
    pub fn id<T: Into<ElementId>>(self, id: T) -> (r: Div<V, StatefulInteraction<V>, F>)
        ensures
            r@.base_style == self@.base_style,
            r@.focus == self@.focus,
            r@.interaction.is_fresh(r@.interaction.id, self@.interaction),
            T::obeys_into_spec() ==> r@.interaction.id == id.into_spec(),
    {
        self.with_id(id.into())
    }

    /// Gives the element the identity `id`. What was registered without one
    /// stays.
    pub fn with_id(self, id: ElementId) -> (r: Div<V, StatefulInteraction<V>, F>)
        ensures
            r.identity() == Some(id),
            r@.base_style == self@.base_style,
            r@.focus == self@.focus,
            r@.interaction.is_fresh(id, self@.interaction),
    {
        Div {
            interaction: StatefulInteraction::new(id, self.interaction),
            focus: self.focus,
            base_style: self.base_style,
            view_state: PhantomData,
        }
    }
}

impl<V, I: ElementInteraction<V>> Div<V, I, FocusDisabled> {
    /// Lets the element take part in focus through `handle`.
    pub fn focusable(self, handle: &FocusHandle) -> (r: Div<V, I, FocusEnabled<V>>)
        ensures
            r@.base_style == self@.base_style,
            r@.interaction == self@.interaction,
            r@.focus.is_fresh(*handle),
    {
        Div {
            interaction: self.interaction,
            focus: FocusEnabled::new(*handle),
            base_style: self.base_style,
            view_state: PhantomData,
        }
    }
}

impl<V, I: ElementInteraction<V>, F: ElementFocus<V>> Div<V, I, F> {
    /// The style that the element has at `bounds` in `frame`: the initial
    /// style under the element's own refinement, the focus layers and the
    /// interaction layers, in this order.
    pub open spec fn computed_style(
        &self,
        bounds: Bounds<Pixels>,
        state: DivState,
        frame: Frame,
    ) -> Style {
        refined_by_interaction(
            self@.interaction,
            refined_by_focus(self@.focus, Style::initial().refined(self@.base_style), frame),
            bounds,
            state.interactive,
            frame,
        )
    }

    /// The bounds of an element that has not been laid out yet.
    pub open spec fn no_bounds() -> Bounds<Pixels> {
        Bounds {
            origin: Point { x: Pixels(0), y: Pixels(0) },
            size: Size { width: Pixels(0), height: Pixels(0) },
        }
    }

    pub fn compute_style(
        &self,
        bounds: Bounds<Pixels>,
        state: &DivState,
        cx: &ViewContext<V>,
    ) -> (r: Style)
        ensures
            r == self.computed_style(bounds, *state, cx@),
    {
        let mut computed_style = Style::default();
        computed_style.refine(&self.base_style);
        crate::focus::refine_style(&self.focus, &mut computed_style, cx);
        crate::interactive::refine_style(
            &self.interaction,
            &mut computed_style,
            bounds,
            &state.interactive,
            cx,
        );
        computed_style
    }
}

impl<V, I, F> IntoAnyElement<V> for Div<V, I, F> where
    V: 'static,
    I: ElementInteraction<V> + 'static,
    F: ElementFocus<V> + 'static,
 {
    fn into_any(self) -> (r: AnyElement<V>)
        ensures
            r.erases(self, Progress::Start),
    {
        AnyElement::new(self)
    }
}

impl<V, I: ElementInteraction<V>, F: ElementFocus<V>> Element for Div<V, I, F> {
    type ViewState = V;

    type ElementState = DivState;

    open spec fn identity(&self) -> Option<ElementId> {
        match self@.interaction.stateful() {
            Some(stateful) => Some(stateful.id),
            None => None,
        }
    }

    /// The state kept from the frame before, or a fresh one.
    open spec fn initialized_state(&self, prior: Option<DivState>, frame: Frame) -> DivState {
        match prior {
            Some(state) => state,
            None => DivState::fresh(),
        }
    }

    open spec fn initialized_frame(&self, prior: Option<DivState>, frame: Frame) -> Frame {
        frame
    }

    open spec fn laid_out_state(&self, state: DivState, frame: Frame) -> DivState {
        state
    }

    /// One more layout node, with the style computed before the element has
    /// bounds.
    open spec fn laid_out_frame(&self, state: DivState, frame: Frame) -> Frame {
        frame.with_layout(self.computed_style(Div::<V, I, F>::no_bounds(), state, frame))
    }

    /// Whether the mouse is over the element is recorded; whether it is
    /// pressed stays as it was.
    open spec fn painted_state(
        &self,
        bounds: Bounds<Pixels>,
        state: DivState,
        frame: Frame,
    ) -> DivState {
        DivState {
            interactive: InteractiveElementState {
                hovered: bounds.contains(frame.mouse_position),
                active: state.interactive.active,
            },
        }
    }

    /// The background, where the computed style has one.
    open spec fn painted_frame(
        &self,
        bounds: Bounds<Pixels>,
        state: DivState,
        frame: Frame,
    ) -> Frame {
        match self.computed_style(bounds, state, frame).background {
            Some(background) => frame.with_quad(bounds, background),
            None => frame,
        }
    }

    fn id(&self) -> (r: Option<ElementId>) {
        match self.interaction.as_stateful() {
            Some(stateful) => Some(stateful.id.clone()),
            None => None,
        }
    }

    fn initialize(
        &mut self,
        view_state: &mut V,
        element_state: Option<DivState>,
        cx: &mut ViewContext<V>,
    ) -> (r: DivState)
        ensures
            *final(view_state) == *old(view_state),
    {
        match element_state {
            Some(state) => state,
            None => DivState::default(),
        }
    }

    fn layout(
        &mut self,
        view_state: &mut V,
        element_state: &mut DivState,
        cx: &mut ViewContext<V>,
    ) -> (r: LayoutId)
        ensures
            *final(view_state) == *old(view_state),
    {
        let unplaced = Bounds {
            origin: Point { x: Pixels(0), y: Pixels(0) },
            size: Size { width: Pixels(0), height: Pixels(0) },
        };
        let style = self.compute_style(unplaced, element_state, cx);
        cx.request_layout(style)
    }

    fn paint(
        &mut self,
        bounds: Bounds<Pixels>,
        view_state: &mut V,
        element_state: &mut DivState,
        cx: &mut ViewContext<V>,
    )
        ensures
            *final(view_state) == *old(view_state),
    {
        let style = self.compute_style(bounds, element_state, cx);
        if let Some(background) = style.background {
            cx.paint_quad(bounds, background);
        }
        let mouse_position = cx.mouse_position();
        element_state.interactive.hovered = bounds.contains_point(&mouse_position);
    }
}

impl<V, I: ElementInteraction<V>, F: ElementFocus<V>> Styled for Div<V, I, F> {
    open spec fn style_refinement(&self) -> StyleRefinement {
        self@.base_style
    }

    fn style(&mut self) -> (r: &mut StyleRefinement)
        ensures
            final(self)@ == (DivView { base_style: *final(r), ..old(self)@ }),
    {
        &mut self.base_style
    }
}

impl<V, I: ElementInteraction<V>, F: ElementFocus<V>> StatelessInteractive for Div<V, I, F> {
    open spec fn stateless_interaction(&self) -> StatelessInteraction<V> {
        self@.interaction.stateless()
    }

    fn stateless_interactivity(&mut self) -> (r: &mut StatelessInteraction<V>)
        ensures
            final(self)@ == (DivView {
                interaction: old(self)@.interaction.with_stateless(*final(r)),
                ..old(self)@
            }),
    {
        proof {
            let interaction = self.interaction;
            assert forall|s: StatelessInteraction<V>|
                #![trigger interaction.with_stateless(s)]
                interaction.with_stateless(s).stateless() == s && interaction.with_stateless(
                    s,
                ).stateful() == match interaction.stateful() {
                    Some(stateful) => Some(StatefulInteraction { stateless: s, ..stateful }),
                    None => None,
                } by {
                interaction.lemma_with_stateless(s);
            }
        }
        self.interaction.as_stateless_mut()
    }
}

impl<V, F: ElementFocus<V>> StatefulInteractive for Div<V, StatefulInteraction<V>, F> {
    open spec fn interaction(&self) -> StatefulInteraction<V> {
        self@.interaction
    }

    fn stateful_interaction(&mut self) -> (r: &mut StatefulInteraction<V>)
        ensures
            final(self)@ == (DivView { interaction: *final(r), ..old(self)@ }),
    {
        &mut self.interaction
    }
}

impl<V, I: ElementInteraction<V>> Focusable for Div<V, I, FocusEnabled<V>> {
    open spec fn focus(&self) -> FocusEnabled<V> {
        self@.focus
    }

    fn focus_listeners(&mut self) -> (r: &mut FocusListeners<V>)
        ensures
            final(self)@.interaction == old(self)@.interaction,
            final(self)@.base_style == old(self)@.base_style,
    {
        &mut self.focus.focus_listeners
    }

    fn set_focus_style(&mut self, style: StyleRefinement)
        ensures
            final(self)@.interaction == old(self)@.interaction,
            final(self)@.base_style == old(self)@.base_style,
    {
        self.focus.focus_style = style;
    }

    fn set_focus_in_style(&mut self, style: StyleRefinement)
        ensures
            final(self)@.interaction == old(self)@.interaction,
            final(self)@.base_style == old(self)@.base_style,
    {
        self.focus.focus_in_style = style;
    }

    fn set_in_focus_style(&mut self, style: StyleRefinement)
        ensures
            final(self)@.interaction == old(self)@.interaction,
            final(self)@.base_style == old(self)@.base_style,
    {
        self.focus.in_focus_style = style;
    }
}

} // verus!
