//! The vector-graphic leaf: a base element and the path of a resource that is
//! drawn over it, tinted with the element's foreground color.

use crate::color::Hsla;
use crate::element::{AnyElement, Element, ElementId, IntoAnyElement, Progress};
use crate::elements::div::{div, Div, DivState, DivView};
use crate::focus::{
    refined_by_focus, ElementFocus, FocusDisabled, FocusEnabled, FocusListeners, Focusable,
};
use crate::geometry::{Bounds, Pixels};
use crate::interactive::{
    refined_by_interaction, ElementInteraction, StatefulInteraction, StatefulInteractive,
    StatelessInteraction, StatelessInteractive,
};
use crate::shared_string::SharedString;
use crate::style::{Style, StyleRefinement};
use crate::styled::Styled;
use crate::window::{DrawError, Frame, LayoutId, Primitive, ViewContext};
use vstd::prelude::*;
use vstd::std_specs::convert::IntoSpec;

verus! {

/// A leaf over the view state `V`, in the state `I` of the interaction axis
/// and the state `F` of the focus axis. It owns its base element; the path is
/// configuration, and nothing of a paint is kept in the leaf.
pub struct Svg<V, I = StatelessInteraction<V>, F = FocusDisabled> where
    I: ElementInteraction<V>,
    F: ElementFocus<V>,
 {
    base: Div<V, I, F>,
    path: Option<SharedString>,
}

/// What an `Svg` holds.
pub struct SvgView<V, I: ElementInteraction<V>, F: ElementFocus<V>> {
    pub base: Div<V, I, F>,
    pub path: Option<SharedString>,
}

impl<V, I: ElementInteraction<V>, F: ElementFocus<V>> View for Svg<V, I, F> {
    type V = SvgView<V, I, F>;

    closed spec fn view(&self) -> SvgView<V, I, F> {
        SvgView { base: self.base, path: self.path }
    }
}

/// A leaf over a blank base: no path, no identity, no part in focus.
pub fn svg<V>() -> (r: Svg<V, StatelessInteraction<V>, FocusDisabled>)
    ensures
        r@.path is None,
        r@.base@.base_style == StyleRefinement::empty(),
        r@.base@.interaction.is_blank(),
{
    Svg { base: div(), path: None }
}

impl<V, I: ElementInteraction<V>, F: ElementFocus<V>> Svg<V, I, F> {
    /// Sets the path of the resource to draw, converted from `path`, in
    /// place of any path set before.
    pub fn path<T: Into<SharedString>>(self, path: T) -> (r: Self)
        ensures
            r@.base == self@.base,
            r@.path is Some,
            T::obeys_into_spec() ==> r@.path == Some(path.into_spec()),
    {
        self.with_path(path.into())
    }

    /// Sets `path` as the path of the resource to draw, in place of any path
    /// set before.
    pub fn with_path(self, path: SharedString) -> (r: Self)
        ensures
            r@.base == self@.base,
            r@.path == Some(path),
    {
        Svg { base: self.base, path: Some(path) }
    }

    /// The foreground color that the cascade of the base yields at `bounds`.
    pub open spec fn resolved_color(
        &self,
        bounds: Bounds<Pixels>,
        state: DivState,
        frame: Frame,
    ) -> Option<Hsla> {
        self@.base.computed_style(bounds, state, frame).text.color
    }
}

impl<V, F: ElementFocus<V>> Svg<V, StatefulInteraction<V>, F> {
    /// This leaf is `prior` under the identity `id`: the same path, style
    /// and focus, and the interaction of `prior` as its stateless part.
    pub open spec fn is_identified(
        &self,
        prior: Svg<V, StatelessInteraction<V>, F>,
        id: ElementId,
    ) -> bool {
        &&& self@.path == prior@.path
        &&& self@.base@.base_style == prior@.base@.base_style
        &&& self@.base@.focus == prior@.base@.focus
        &&& self@.base@.interaction.is_fresh(id, prior@.base@.interaction)
    }
}

impl<V, F: ElementFocus<V>> Svg<V, StatelessInteraction<V>, F> {
    /// Gives the leaf an identity, converted from `id`. This and `with_id`
    /// are the one way from a leaf without identity to a leaf with one.
    pub fn id<T: Into<ElementId>>(self, id: T) -> (r: Svg<V, StatefulInteraction<V>, F>)
        ensures
            r.identity() is Some,
            r.is_identified(self, r.identity()->0),
            T::obeys_into_spec() ==> r.identity() == Some(id.into_spec()),
    {
        self.with_id(id.into())
    }

    /// Gives the leaf the identity `id`.
    pub fn with_id(self, id: ElementId) -> (r: Svg<V, StatefulInteraction<V>, F>)
        ensures
            r.identity() == Some(id),
            r.is_identified(self, id),
    {
        Svg { base: self.base.with_id(id), path: self.path }
    }
}

impl<V, I, F> IntoAnyElement<V> for Svg<V, I, F> where
    V: 'static,
    I: ElementInteraction<V> + 'static,
    F: ElementFocus<V> + 'static,
 {
    fn into_any(self) -> (r: AnyElement<V>)
        ensures
            r.erases(self, Progress::Start),
    {
        AnyElement::new(self)
    }
}

impl<V, I: ElementInteraction<V>, F: ElementFocus<V>> Element for Svg<V, I, F> {
    type ViewState = V;

    type ElementState = DivState;

    open spec fn identity(&self) -> Option<ElementId> {
        self@.base.identity()
    }

    open spec fn initialized_state(&self, prior: Option<DivState>, frame: Frame) -> DivState {
        self@.base.initialized_state(prior, frame)
    }

    open spec fn initialized_frame(&self, prior: Option<DivState>, frame: Frame) -> Frame {
        self@.base.initialized_frame(prior, frame)
    }

    open spec fn laid_out_state(&self, state: DivState, frame: Frame) -> DivState {
        self@.base.laid_out_state(state, frame)
    }

    open spec fn laid_out_frame(&self, state: DivState, frame: Frame) -> Frame {
        self@.base.laid_out_frame(state, frame)
    }

    open spec fn painted_state(
        &self,
        bounds: Bounds<Pixels>,
        state: DivState,
        frame: Frame,
    ) -> DivState {
        self@.base.painted_state(bounds, state, frame)
    }

    /// The work of the base, then one request to draw the resource where
    /// the leaf has a path and the cascade yields a foreground color.
    open spec fn painted_frame(
        &self,
        bounds: Bounds<Pixels>,
        state: DivState,
        frame: Frame,
    ) -> Frame {
        let base_frame = self@.base.painted_frame(bounds, state, frame);
        match (self@.path, self.resolved_color(bounds, state, frame)) {
            (Some(path), Some(color)) => base_frame.svg_drawn(bounds, path, color),
            _ => base_frame,
        }
    }

    fn id(&self) -> (r: Option<ElementId>) {
        self.base.id()
    }

    /// The leaf keeps no state of its own: the state is that of the base.
    fn initialize(
        &mut self,
        view_state: &mut V,
        element_state: Option<DivState>,
        cx: &mut ViewContext<V>,
    ) -> (r: DivState)
        ensures
            *final(view_state) == *old(view_state),
    {
        self.base.initialize(view_state, element_state, cx)
    }

    /// The leaf adds no geometry: the layout node is that of the base.
    fn layout(
        &mut self,
        view_state: &mut V,
        element_state: &mut DivState,
        cx: &mut ViewContext<V>,
    ) -> (r: LayoutId)
        ensures
            *final(view_state) == *old(view_state),
    {
        self.base.layout(view_state, element_state, cx)
    }

    /// Paints the base, then draws the resource over it. Without a path, or
    /// where the cascade yields no foreground color, the frame is that of
    /// the base. With both, one request is made to draw the path at `bounds`
    /// with the color as tint; if it fails, the failure is recorded in the
    /// frame and nothing else changes.
    fn paint(
        &mut self,
        bounds: Bounds<Pixels>,
        view_state: &mut V,
        element_state: &mut DivState,
        cx: &mut ViewContext<V>,
    )
        ensures
            old(self)@.path is None ==> final(cx)@ == old(self)@.base.painted_frame(
                bounds,
                *old(element_state),
                old(cx)@,
            ),
            old(self).resolved_color(bounds, *old(element_state), old(cx)@) is None ==> final(cx)@
                == old(self)@.base.painted_frame(bounds, *old(element_state), old(cx)@),
            forall|path: SharedString, color: Hsla|
                old(self)@.path == Some(path) && old(self).resolved_color(
                    bounds,
                    *old(element_state),
                    old(cx)@,
                ) == Some(color) ==> final(cx)@ == old(self)@.base.painted_frame(
                    bounds,
                    *old(element_state),
                    old(cx)@,
                ).svg_drawn(bounds, path, color),
            *final(view_state) == *old(view_state),
    {
        self.base.paint(bounds, view_state, element_state, cx);
        let color = self.base.compute_style(bounds, element_state, cx).text.color;
        if let Some(path) = &self.path {
            if let Some(color) = color {
                let drawn = cx.paint_svg(bounds, path.clone(), color);
                cx.log_err(drawn);
            }
        }
    }
}

impl<V, I: ElementInteraction<V>, F: ElementFocus<V>> Styled for Svg<V, I, F> {
    open spec fn style_refinement(&self) -> StyleRefinement {
        self@.base.style_refinement()
    }

    fn style(&mut self) -> (r: &mut StyleRefinement)
        ensures
            final(self)@.path == old(self)@.path,
            final(self)@.base@ == (DivView { base_style: *final(r), ..old(self)@.base@ }),
    {
        self.base.style()
    }
}

impl<V, I: ElementInteraction<V>, F: ElementFocus<V>> StatelessInteractive for Svg<V, I, F> {
    open spec fn stateless_interaction(&self) -> StatelessInteraction<V> {
        self@.base.stateless_interaction()
    }

    fn stateless_interactivity(&mut self) -> (r: &mut StatelessInteraction<V>)
        ensures
            final(self)@.path == old(self)@.path,
            final(self)@.base@ == (DivView {
                interaction: old(self)@.base@.interaction.with_stateless(*final(r)),
                ..old(self)@.base@
            }),
    {
        self.base.stateless_interactivity()
    }
}

impl<V, F: ElementFocus<V>> StatefulInteractive for Svg<V, StatefulInteraction<V>, F> {
    open spec fn interaction(&self) -> StatefulInteraction<V> {
        self@.base.interaction()
    }

    fn stateful_interaction(&mut self) -> (r: &mut StatefulInteraction<V>)
        ensures
            final(self)@.path == old(self)@.path,
            final(self)@.base@ == (DivView { interaction: *final(r), ..old(self)@.base@ }),
    {
        self.base.stateful_interaction()
    }
}

impl<V, I: ElementInteraction<V>> Focusable for Svg<V, I, FocusEnabled<V>> {
    open spec fn focus(&self) -> FocusEnabled<V> {
        self@.base.focus()
    }

    fn focus_listeners(&mut self) -> (r: &mut FocusListeners<V>)
        ensures
            final(self)@.path == old(self)@.path,
            final(self)@.base@.interaction == old(self)@.base@.interaction,
            final(self)@.base@.base_style == old(self)@.base@.base_style,
    {
        self.base.focus_listeners()
    }

    fn set_focus_style(&mut self, style: StyleRefinement)
        ensures
            final(self)@.path == old(self)@.path,
            final(self)@.base@.interaction == old(self)@.base@.interaction,
            final(self)@.base@.base_style == old(self)@.base@.base_style,
    {
        self.base.set_focus_style(style)
    }

    fn set_focus_in_style(&mut self, style: StyleRefinement)
        ensures
            final(self)@.path == old(self)@.path,
            final(self)@.base@.interaction == old(self)@.base@.interaction,
            final(self)@.base@.base_style == old(self)@.base@.base_style,
    {
        self.base.set_focus_in_style(style)
    }

    fn set_in_focus_style(&mut self, style: StyleRefinement)
        ensures
            final(self)@.path == old(self)@.path,
            final(self)@.base@.interaction == old(self)@.base@.interaction,
            final(self)@.base@.base_style == old(self)@.base@.base_style,
    {
        self.base.set_in_focus_style(style)
    }
}

/// A leaf that was given an identity reports that identity; the leaf it was
/// made from reported none.
pub proof fn lemma_identified_leaf_reports_identity<V, F: ElementFocus<V>>(
    later: Svg<V, StatefulInteraction<V>, F>,
    prior: Svg<V, StatelessInteraction<V>, F>,
    id: ElementId,
)
    requires
        later.is_identified(prior, id),
    ensures
        later.identity() == Some(id),
        prior.identity() is None,
{
}

/// A leaf keeps no style of its own: the refinement that `style` lends is
/// the refinement of the base, and the color that `paint` resolves is the
/// foreground color of the cascade over that refinement.
pub proof fn lemma_paint_resolves_the_styled_refinement<
    V,
    I: ElementInteraction<V>,
    F: ElementFocus<V>,
>(leaf: Svg<V, I, F>, bounds: Bounds<Pixels>, state: DivState, frame: Frame)
    ensures
        leaf.style_refinement() == leaf@.base@.base_style,
        leaf.resolved_color(bounds, state, frame) == refined_by_interaction(
            leaf@.base@.interaction,
            refined_by_focus(
                leaf@.base@.focus,
                Style::initial().refined(leaf.style_refinement()),
                frame,
            ),
            bounds,
            state.interactive,
            frame,
        ).text.color,
{
}

/// Where no focus or interaction layer applies, the foreground color written
/// through `style` is the color that `paint` resolves.
pub proof fn lemma_styled_color_is_resolved<V, I: ElementInteraction<V>, F: ElementFocus<V>>(
    leaf: Svg<V, I, F>,
    color: Hsla,
    bounds: Bounds<Pixels>,
    state: DivState,
    frame: Frame,
)
    requires
        leaf.style_refinement().text.color == Some(color),
        leaf@.base@.focus.focusable() is None,
        !bounds.contains(frame.mouse_position),
        !state.interactive.active,
    ensures
        leaf.resolved_color(bounds, state, frame) == Some(color),
{
}

/// Painting a leaf draws no resource and logs nothing beyond one request:
/// without a path or without a color the frame is the frame of the base;
/// with both, the scene grows by the one sprite if the path resolves, and
/// the diagnostics by the one failure if it does not.
pub proof fn lemma_paint_issues_at_most_one_draw<V, I: ElementInteraction<V>, F: ElementFocus<V>>(
    leaf: Svg<V, I, F>,
    bounds: Bounds<Pixels>,
    state: DivState,
    frame: Frame,
)
    ensures
        ({
            let base = leaf@.base.painted_frame(bounds, state, frame);
            let after = leaf.painted_frame(bounds, state, frame);
            match (leaf@.path, leaf.resolved_color(bounds, state, frame)) {
                (Some(path), Some(color)) => if frame.resolves(path@) {
                    &&& after.scene == base.scene.push(Primitive::Sprite { bounds, path, color })
                    &&& after.diagnostics == frame.diagnostics
                } else {
                    &&& after.scene == base.scene
                    &&& after.diagnostics == frame.diagnostics.push(
                        DrawError::ResourceNotFound { path },
                    )
                },
                _ => after == base,
            }
        }),
        leaf@.base.painted_frame(bounds, state, frame).diagnostics == frame.diagnostics,
        leaf.painted_frame(bounds, state, frame).extends(frame),
{
}

/// A draw that fails does not stop the frame. Where the path of `first` does
/// not resolve and the path of `second` does, painting the two in turn logs
/// the failure of `first` and still draws `second`, last in the scene.
pub proof fn lemma_failed_draw_leaves_siblings_painted<
    V,
    I: ElementInteraction<V>,
    F: ElementFocus<V>,
    J: ElementInteraction<V>,
    G: ElementFocus<V>,
>(
    first: Svg<V, I, F>,
    first_bounds: Bounds<Pixels>,
    first_state: DivState,
    second: Svg<V, J, G>,
    second_bounds: Bounds<Pixels>,
    second_state: DivState,
    frame: Frame,
    missing: SharedString,
    found: SharedString,
    first_color: Hsla,
    second_color: Hsla,
)
    requires
        first@.path == Some(missing),
        first.resolved_color(first_bounds, first_state, frame) == Some(first_color),
        !frame.resolves(missing@),
        second@.path == Some(found),
        second.resolved_color(second_bounds, second_state, frame) == Some(second_color),
        frame.resolves(found@),
    ensures
        ({
            let after_first = first.painted_frame(first_bounds, first_state, frame);
            let after_second = second.painted_frame(second_bounds, second_state, after_first);
            &&& after_first.diagnostics == frame.diagnostics.push(
                DrawError::ResourceNotFound { path: missing },
            )
            &&& after_second.diagnostics == after_first.diagnostics
            &&& after_second.scene.len() > 0
            &&& after_second.scene.last() == (Primitive::Sprite {
                bounds: second_bounds,
                path: found,
                color: second_color,
            })
            &&& after_second.extends(after_first)
        }),
{
}

} // verus!
