//! The interaction capability of an element: what it does without an
//! identity, and what it can do once it has one.

use crate::element::{Element, ElementId, Listener};
use crate::geometry::{Bounds, Pixels};
use crate::style::{Style, StyleRefinement};
use crate::window::{Frame, ViewContext};
use vstd::prelude::*;

verus! {

/// Interaction that needs no state kept between frames.
#[derive(Debug)]
pub struct StatelessInteraction<V> {
    /// Laid over the style while the mouse is over the element.
    pub hover_style: StyleRefinement,
    pub mouse_down_listeners: Vec<Listener<V>>,
}

/// Interaction of an element with an identity, under which the engine keeps
/// its state (hovered, pressed) from frame to frame.
#[derive(Debug)]
pub struct StatefulInteraction<V> {
    pub id: ElementId,
    pub stateless: StatelessInteraction<V>,
    /// Laid over the style while the element is pressed.
    pub active_style: StyleRefinement,
    pub click_listeners: Vec<Listener<V>>,
}

/// The interaction state of one element, kept by identity between frames.
#[derive(Clone, Copy, Debug, PartialEq, Eq)]
pub struct InteractiveElementState {
    /// The mouse was over the element when it was last painted.
    pub hovered: bool,
    /// The element is being pressed.
    pub active: bool,
}

impl Default for InteractiveElementState {
    fn default() -> (r: InteractiveElementState)
        ensures
            r == (InteractiveElementState { hovered: false, active: false }),
    {
        InteractiveElementState { hovered: false, active: false }
    }
}

impl<V> StatelessInteraction<V> {
    /// No hover style and no listeners.
    pub open spec fn is_blank(&self) -> bool {
        &&& self.hover_style == StyleRefinement::empty()
        &&& self.mouse_down_listeners@ == Seq::<Listener<V>>::empty()
    }
}

impl<V> Default for StatelessInteraction<V> {
    fn default() -> (r: StatelessInteraction<V>)
        ensures
            r.is_blank(),
    {
        StatelessInteraction {
            hover_style: StyleRefinement::default(),
            mouse_down_listeners: Vec::new(),
        }
    }
}

impl<V> StatefulInteraction<V> {
    /// `stateless` under the identity `id`, with nothing that needs the
    /// identity registered yet.
    pub open spec fn is_fresh(&self, id: ElementId, stateless: StatelessInteraction<V>) -> bool {
        &&& self.id == id
        &&& self.stateless == stateless
        &&& self.active_style == StyleRefinement::empty()
        &&& self.click_listeners@ == Seq::<Listener<V>>::empty()
    }

    pub fn new(id: ElementId, stateless: StatelessInteraction<V>) -> (r: Self)
        ensures
            r.is_fresh(id, stateless),
    {
        StatefulInteraction {
            id,
            stateless,
            active_style: StyleRefinement::default(),
            click_listeners: Vec::new(),
        }
    }
}

/// One of the two states of the interaction axis.
pub trait ElementInteraction<V>: Sized {
    /// The part that every state of the axis has.
    spec fn stateless(&self) -> StatelessInteraction<V>;

    /// The whole interaction, where it has an identity.
    spec fn stateful(&self) -> Option<StatefulInteraction<V>>;

    /// This interaction with its stateless part replaced.
    spec fn with_stateless(self, stateless: StatelessInteraction<V>) -> Self;

    /// Replacing the stateless part changes that part and nothing else.
    proof fn lemma_with_stateless(self, stateless: StatelessInteraction<V>)
        ensures
            self.with_stateless(stateless).stateless() == stateless,
            self.with_stateless(stateless).stateful() == match self.stateful() {
                Some(stateful) => Some(StatefulInteraction { stateless, ..stateful }),
                None => None,
            },
    ;

    fn as_stateless(&self) -> (r: &StatelessInteraction<V>)
        ensures
            *r == self.stateless(),
    ;

    fn as_stateless_mut(&mut self) -> (r: &mut StatelessInteraction<V>)
        ensures
            *r == old(self).stateless(),
            *final(self) == old(self).with_stateless(*final(r)),
    ;

    fn as_stateful(&self) -> (r: Option<&StatefulInteraction<V>>)
        ensures
            match r {
                Some(stateful) => self.stateful() == Some(*stateful),
                None => self.stateful() is None,
            },
    ;
}

/// `style` with the layers of `interaction` laid over it: the hover style
/// where the mouse is within `bounds`, then the active style where the
/// element has an identity and is pressed.
pub open spec fn refined_by_interaction<V, I: ElementInteraction<V>>(
    interaction: I,
    style: Style,
    bounds: Bounds<Pixels>,
    state: InteractiveElementState,
    frame: Frame,
) -> Style {
    let hovered = if bounds.contains(frame.mouse_position) {
        style.refined(interaction.stateless().hover_style)
    } else {
        style
    };
    match interaction.stateful() {
        Some(stateful) => if state.active {
            hovered.refined(stateful.active_style)
        } else {
            hovered
        },
        None => hovered,
    }
}

/// Lays the layers of `interaction` over `style`.
pub fn refine_style<V, I: ElementInteraction<V>>(
    interaction: &I,
    style: &mut Style,
    bounds: Bounds<Pixels>,
    state: &InteractiveElementState,
    cx: &ViewContext<V>,
)
    ensures
        *final(style) == refined_by_interaction(*interaction, *old(style), bounds, *state, cx@),
{
    let mouse_position = cx.mouse_position();
    if bounds.contains_point(&mouse_position) {
        style.refine(&interaction.as_stateless().hover_style);
    }
    if state.active {
        if let Some(stateful) = interaction.as_stateful() {
            style.refine(&stateful.active_style);
        }
    }
}

impl<V> ElementInteraction<V> for StatelessInteraction<V> {
    open spec fn stateless(&self) -> StatelessInteraction<V> {
        *self
    }

    open spec fn stateful(&self) -> Option<StatefulInteraction<V>> {
        None
    }

    open spec fn with_stateless(self, stateless: StatelessInteraction<V>) -> Self {
        stateless
    }

    proof fn lemma_with_stateless(self, stateless: StatelessInteraction<V>) {
    }

    fn as_stateless(&self) -> (r: &StatelessInteraction<V>) {
        self
    }

    fn as_stateless_mut(&mut self) -> (r: &mut StatelessInteraction<V>) {
        self
    }

    fn as_stateful(&self) -> (r: Option<&StatefulInteraction<V>>) {
        None
    }
}

impl<V> ElementInteraction<V> for StatefulInteraction<V> {
    open spec fn stateless(&self) -> StatelessInteraction<V> {
        self.stateless
    }

    open spec fn stateful(&self) -> Option<StatefulInteraction<V>> {
        Some(*self)
    }

    open spec fn with_stateless(self, stateless: StatelessInteraction<V>) -> Self {
        StatefulInteraction { stateless, ..self }
    }

    proof fn lemma_with_stateless(self, stateless: StatelessInteraction<V>) {
    }

    fn as_stateless(&self) -> (r: &StatelessInteraction<V>) {
        &self.stateless
    }

    fn as_stateless_mut(&mut self) -> (r: &mut StatelessInteraction<V>) {
        &mut self.stateless
    }

    fn as_stateful(&self) -> (r: Option<&StatefulInteraction<V>>) {
        Some(self)
    }
}

/// An element on which interaction that needs no identity can be registered:
/// every element.
pub trait StatelessInteractive: Element {
    /// The stateless interaction of the element.
    spec fn stateless_interaction(&self) -> StatelessInteraction<Self::ViewState>;

    fn stateless_interactivity(&mut self) -> (r: &mut StatelessInteraction<Self::ViewState>)
        ensures
            *r == old(self).stateless_interaction(),
            final(self).stateless_interaction() == *final(r),
            final(self).identity() == old(self).identity(),
    ;
}

/// An element on which interaction tied to its identity can be registered:
/// only one that has an identity.
pub trait StatefulInteractive: StatelessInteractive {
    /// The interaction of the element, identity included.
    spec fn interaction(&self) -> StatefulInteraction<Self::ViewState>;

    fn stateful_interaction(&mut self) -> (r: &mut StatefulInteraction<Self::ViewState>)
        ensures
            *r == old(self).interaction(),
            final(self).interaction() == *final(r),
    ;
}

} // verus!
