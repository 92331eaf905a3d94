//! The lifecycle that the engine drives every element through.

use crate::geometry::{Bounds, Pixels};
use crate::shared_string::SharedString;
use crate::window::{Frame, LayoutId, ViewContext};
use std::marker::PhantomData;
use vstd::pervasive::unreached;
use vstd::prelude::*;
use vstd::std_specs::convert::FromSpecImpl;

verus! {

/// The identity under which an element's interaction state is kept from one
/// frame to the next.
#[derive(Debug, PartialEq, Eq)]
pub enum ElementId {
    Number(usize),
    Name(SharedString),
}

impl Clone for ElementId {
    fn clone(&self) -> (r: ElementId)
        ensures
            r == *self,
    {
        match self {
            ElementId::Number(n) => ElementId::Number(*n),
            ElementId::Name(name) => ElementId::Name(name.clone()),
        }
    }
}

impl From<usize> for ElementId {
    fn from(n: usize) -> (r: ElementId) {
        ElementId::Number(n)
    }
}

impl FromSpecImpl<usize> for ElementId {
    open spec fn obeys_from_spec() -> bool {
        true
    }

    open spec fn from_spec(n: usize) -> ElementId {
        ElementId::Number(n)
    }
}

impl From<SharedString> for ElementId {
    fn from(name: SharedString) -> (r: ElementId) {
        ElementId::Name(name)
    }
}

impl FromSpecImpl<SharedString> for ElementId {
    open spec fn obeys_from_spec() -> bool {
        true
    }

    open spec fn from_spec(name: SharedString) -> ElementId {
        ElementId::Name(name)
    }
}

impl From<&'static str> for ElementId {
    fn from(name: &'static str) -> (r: ElementId) {
        ElementId::Name(SharedString::Borrowed(name))
    }
}

impl FromSpecImpl<&'static str> for ElementId {
    open spec fn obeys_from_spec() -> bool {
        true
    }

    open spec fn from_spec(name: &'static str) -> ElementId {
        ElementId::Name(SharedString::Borrowed(name))
    }
}

/// Names a callback over the view state `V`. The engine that dispatches
/// events keeps the callbacks themselves; elements carry their names.
#[derive(Debug)]
pub struct Listener<V> {
    pub handler: u64,
    pub view_state: PhantomData<V>,
}

impl<V> Listener<V> {
    pub fn new(handler: u64) -> (r: Self)
        ensures
            r.handler == handler,
    {
        Listener { handler, view_state: PhantomData }
    }
}

/// An element of the tree. Once per frame, and in this order, the engine
/// asks for its identity, initializes it with the state kept from the frame
/// before, lays it out and paints it.
///
/// An element is configuration: a stage leaves the element as it was, and
/// what the element retains goes into its state. The state and the frame
/// that a stage yields are functions of the element and of what the stage
/// is handed. Whatever a stage does, it leaves the engine's inputs and the
/// work of the elements before it in place.
pub trait Element: Sized {
    type ViewState;

    type ElementState;

    /// The identity of the element, if it has one.
    spec fn identity(&self) -> Option<ElementId>;

    /// The state that `initialize` yields from the state kept before.
    spec fn initialized_state(
        &self,
        prior: Option<Self::ElementState>,
        frame: Frame,
    ) -> Self::ElementState;

    /// The frame after `initialize`.
    spec fn initialized_frame(&self, prior: Option<Self::ElementState>, frame: Frame) -> Frame;

    /// The state after `layout`.
    spec fn laid_out_state(&self, state: Self::ElementState, frame: Frame) -> Self::ElementState;

    /// The frame after `layout`.
    spec fn laid_out_frame(&self, state: Self::ElementState, frame: Frame) -> Frame;

    /// The state after `paint` at `bounds`.
    spec fn painted_state(
        &self,
        bounds: Bounds<Pixels>,
        state: Self::ElementState,
        frame: Frame,
    ) -> Self::ElementState;

    /// The frame after `paint` at `bounds`.
    spec fn painted_frame(
        &self,
        bounds: Bounds<Pixels>,
        state: Self::ElementState,
        frame: Frame,
    ) -> Frame;

    fn id(&self) -> (r: Option<ElementId>)
        ensures
            r == self.identity(),
    ;

    fn initialize(
        &mut self,
        view_state: &mut Self::ViewState,
        element_state: Option<Self::ElementState>,
        cx: &mut ViewContext<Self::ViewState>,
    ) -> (r: Self::ElementState)
        ensures
            *final(self) == *old(self),
            r == old(self).initialized_state(element_state, old(cx)@),
            final(cx)@ == old(self).initialized_frame(element_state, old(cx)@),
            final(cx)@.extends(old(cx)@),
    ;

    /// The node that is returned is the last that the stage has requested.
    fn layout(
        &mut self,
        view_state: &mut Self::ViewState,
        element_state: &mut Self::ElementState,
        cx: &mut ViewContext<Self::ViewState>,
    ) -> (r: LayoutId)
        ensures
            *final(self) == *old(self),
            *final(element_state) == old(self).laid_out_state(*old(element_state), old(cx)@),
            final(cx)@ == old(self).laid_out_frame(*old(element_state), old(cx)@),
            final(cx)@.extends(old(cx)@),
            r.0 + 1 == final(cx)@.layouts.len(),
    ;

    fn paint(
        &mut self,
        bounds: Bounds<Pixels>,
        view_state: &mut Self::ViewState,
        element_state: &mut Self::ElementState,
        cx: &mut ViewContext<Self::ViewState>,
    )
        ensures
            *final(self) == *old(self),
            *final(element_state) == old(self).painted_state(
                bounds,
                *old(element_state),
                old(cx)@,
            ),
            final(cx)@ == old(self).painted_frame(bounds, *old(element_state), old(cx)@),
            final(cx)@.extends(old(cx)@),
    ;
}

/// How far through the lifecycle an element is.
#[derive(Clone, Copy, Debug, PartialEq, Eq)]
pub enum Phase {
    /// Not initialized yet.
    Start,
    /// Initialized for this frame.
    Initialized,
    /// Laid out for this frame.
    LayoutRequested,
    /// Painted; the state is kept for the next frame.
    Painted,
}

/// The stage that an element has reached, with the state that is threaded
/// from stage to stage and from frame to frame.
pub enum Progress<S> {
    Start,
    Initialized { state: S },
    LayoutRequested { state: S },
    Painted { state: S },
}

impl<S> Progress<S> {
    pub open spec fn phase(self) -> Phase {
        match self {
            Progress::Start => Phase::Start,
            Progress::Initialized { .. } => Phase::Initialized,
            Progress::LayoutRequested { .. } => Phase::LayoutRequested,
            Progress::Painted { .. } => Phase::Painted,
        }
    }

    /// The state that is kept, if the element has been initialized.
    pub open spec fn kept(self) -> Option<S> {
        match self {
            Progress::Start => None,
            Progress::Initialized { state } => Some(state),
            Progress::LayoutRequested { state } => Some(state),
            Progress::Painted { state } => Some(state),
        }
    }
}

/// One stage asked of an element, with the frame that the stage starts from.
pub enum StageCall {
    Initialize { frame: Frame },
    Layout { frame: Frame },
    Paint { bounds: Bounds<Pixels>, frame: Frame },
}

impl StageCall {
    /// The stage is the next in the order: any element can be initialized,
    /// an initialized one laid out, a laid out one painted.
    pub open spec fn in_order(self, phase: Phase) -> bool {
        match self {
            StageCall::Initialize { .. } => true,
            StageCall::Layout { .. } => phase is Initialized,
            StageCall::Paint { .. } => phase is LayoutRequested,
        }
    }
}

/// Where `element` stands after `call`: the stage is run on the state that
/// is kept, and what it yields is kept in turn. `initialize` is handed the
/// kept state, or none before the first initialization. A stage out of order
/// is not run.
pub open spec fn advanced<E: Element>(
    element: E,
    progress: Progress<E::ElementState>,
    call: StageCall,
) -> Progress<E::ElementState> {
    match call {
        StageCall::Initialize { frame } => Progress::Initialized {
            state: element.initialized_state(progress.kept(), frame),
        },
        StageCall::Layout { frame } => match progress {
            Progress::Initialized { state } => Progress::LayoutRequested {
                state: element.laid_out_state(state, frame),
            },
            _ => progress,
        },
        StageCall::Paint { bounds, frame } => match progress {
            Progress::LayoutRequested { state } => Progress::Painted {
                state: element.painted_state(bounds, state, frame),
            },
            _ => progress,
        },
    }
}

/// The frame that `call` leaves, run on `element` where it stands.
pub open spec fn produced<E: Element>(
    element: E,
    progress: Progress<E::ElementState>,
    call: StageCall,
) -> Frame {
    match call {
        StageCall::Initialize { frame } => element.initialized_frame(progress.kept(), frame),
        StageCall::Layout { frame } => match progress {
            Progress::Initialized { state } => element.laid_out_frame(state, frame),
            _ => frame,
        },
        StageCall::Paint { bounds, frame } => match progress {
            Progress::LayoutRequested { state } => element.painted_frame(bounds, state, frame),
            _ => frame,
        },
    }
}

/// The frame that `last` leaves, run on `element` after it has been taken
/// through `calls` in turn.
pub open spec fn produced_after<E: Element>(
    element: E,
    progress: Progress<E::ElementState>,
    calls: Seq<StageCall>,
    last: StageCall,
) -> Frame
    decreases calls.len(),
{
    if calls.len() == 0 {
        produced(element, progress, last)
    } else {
        produced_after(element, advanced(element, progress, calls[0]), calls.drop_first(), last)
    }
}

/// An element driven through the stages in order.
struct Rendered<E: Element> {
    element: E,
    progress: Progress<E::ElementState>,
}

/// What `AnyElement` holds behind its box: an element of any type.
trait ElementObject<V> {
    spec fn phase(&self) -> Phase;

    spec fn identity(&self) -> Option<ElementId>;

    /// The frame that `last` leaves after the element, as it stands, has
    /// been taken through `calls`.
    spec fn frame_after(&self, calls: Seq<StageCall>, last: StageCall) -> Frame;

    fn current_phase(&self) -> (r: Phase)
        ensures
            r == self.phase(),
    ;

    fn initialize(&mut self, view_state: &mut V, cx: &mut ViewContext<V>)
        ensures
            final(self).phase() is Initialized,
            final(self).identity() == old(self).identity(),
            final(cx)@ == old(self).frame_after(
                Seq::empty(),
                StageCall::Initialize { frame: old(cx)@ },
            ),
            forall|calls: Seq<StageCall>, last: StageCall| #[trigger]
                final(self).frame_after(calls, last) == old(self).frame_after(
                    seq![StageCall::Initialize { frame: old(cx)@ }] + calls,
                    last,
                ),
            final(cx)@.extends(old(cx)@),
    ;

    fn layout(&mut self, view_state: &mut V, cx: &mut ViewContext<V>) -> (r: LayoutId)
        requires
            old(self).phase() is Initialized,
        ensures
            final(self).phase() is LayoutRequested,
            final(self).identity() == old(self).identity(),
            final(cx)@ == old(self).frame_after(
                Seq::empty(),
                StageCall::Layout { frame: old(cx)@ },
            ),
            forall|calls: Seq<StageCall>, last: StageCall| #[trigger]
                final(self).frame_after(calls, last) == old(self).frame_after(
                    seq![StageCall::Layout { frame: old(cx)@ }] + calls,
                    last,
                ),
            final(cx)@.extends(old(cx)@),
            r.0 + 1 == final(cx)@.layouts.len(),
    ;

    fn paint(&mut self, bounds: Bounds<Pixels>, view_state: &mut V, cx: &mut ViewContext<V>)
        requires
            old(self).phase() is LayoutRequested,
        ensures
            final(self).phase() is Painted,
            final(self).identity() == old(self).identity(),
            final(cx)@ == old(self).frame_after(
                Seq::empty(),
                StageCall::Paint { bounds, frame: old(cx)@ },
            ),
            forall|calls: Seq<StageCall>, last: StageCall| #[trigger]
                final(self).frame_after(calls, last) == old(self).frame_after(
                    seq![StageCall::Paint { bounds, frame: old(cx)@ }] + calls,
                    last,
                ),
            final(cx)@.extends(old(cx)@),
    ;
}

/// Running `call` and then `calls` is running `calls` from where `call`
/// leaves the element.
proof fn lemma_produced_after_first<E: Element>(
    element: E,
    progress: Progress<E::ElementState>,
    call: StageCall,
    calls: Seq<StageCall>,
    last: StageCall,
)
    ensures
        produced_after(element, progress, seq![call] + calls, last) == produced_after(
            element,
            advanced(element, progress, call),
            calls,
            last,
        ),
{
    assert((seq![call] + calls).drop_first() =~= calls);
}

impl<V, E: Element<ViewState = V>> ElementObject<V> for Rendered<E> {
    spec fn phase(&self) -> Phase {
        self.progress.phase()
    }

    spec fn identity(&self) -> Option<ElementId> {
        self.element.identity()
    }

    spec fn frame_after(&self, calls: Seq<StageCall>, last: StageCall) -> Frame {
        produced_after(self.element, self.progress, calls, last)
    }

    fn current_phase(&self) -> (r: Phase) {
        match &self.progress {
            Progress::Start => Phase::Start,
            Progress::Initialized { .. } => Phase::Initialized,
            Progress::LayoutRequested { .. } => Phase::LayoutRequested,
            Progress::Painted { .. } => Phase::Painted,
        }
    }

    fn initialize(&mut self, view_state: &mut V, cx: &mut ViewContext<V>) {
        let ghost before = *self;
        let ghost call = StageCall::Initialize { frame: cx@ };
        let mut progress = Progress::Start;
        core::mem::swap(&mut self.progress, &mut progress);
        let prior = match progress {
            Progress::Start => None,
            Progress::Initialized { state } => Some(state),
            Progress::LayoutRequested { state } => Some(state),
            Progress::Painted { state } => Some(state),
        };
        let state = self.element.initialize(view_state, prior, cx);
        self.progress = Progress::Initialized { state };
        proof {
            assert forall|calls: Seq<StageCall>, last: StageCall| #[trigger]
                self.frame_after(calls, last) == before.frame_after(seq![call] + calls, last) by {
                lemma_produced_after_first(before.element, before.progress, call, calls, last);
            }
        }
    }

    fn layout(&mut self, view_state: &mut V, cx: &mut ViewContext<V>) -> (r: LayoutId) {
        let ghost before = *self;
        let ghost call = StageCall::Layout { frame: cx@ };
        let mut progress = Progress::Start;
        core::mem::swap(&mut self.progress, &mut progress);
        match progress {
            Progress::Initialized { state } => {
                let mut state = state;
                let layout_id = self.element.layout(view_state, &mut state, cx);
                self.progress = Progress::LayoutRequested { state };
                proof {
                    assert forall|calls: Seq<StageCall>, last: StageCall| #[trigger]
                        self.frame_after(calls, last) == before.frame_after(
                            seq![call] + calls,
                            last,
                        ) by {
                        lemma_produced_after_first(
                            before.element,
                            before.progress,
                            call,
                            calls,
                            last,
                        );
                    }
                }
                layout_id
            },
            _ => unreached(),
        }
    }

    fn paint(&mut self, bounds: Bounds<Pixels>, view_state: &mut V, cx: &mut ViewContext<V>) {
        let ghost before = *self;
        let ghost call = StageCall::Paint { bounds, frame: cx@ };
        let mut progress = Progress::Start;
        core::mem::swap(&mut self.progress, &mut progress);
        match progress {
            Progress::LayoutRequested { state } => {
                let mut state = state;
                self.element.paint(bounds, view_state, &mut state, cx);
                self.progress = Progress::Painted { state };
                proof {
                    assert forall|calls: Seq<StageCall>, last: StageCall| #[trigger]
                        self.frame_after(calls, last) == before.frame_after(
                            seq![call] + calls,
                            last,
                        ) by {
                        lemma_produced_after_first(
                            before.element,
                            before.progress,
                            call,
                            calls,
                            last,
                        );
                    }
                }
            },
            _ => unreached(),
        }
    }
}

/// An element whose type has been erased, so that elements of different
/// types can stand in one tree. It keeps the element's state between stages
/// and frames, hands it to the next stage, and takes the stages in their
/// order only.
#[verifier::reject_recursive_types(V)]
pub struct AnyElement<V>(Box<dyn ElementObject<V>>);

impl<V> AnyElement<V> {
    /// The stage that the element has reached.
    pub closed spec fn phase(&self) -> Phase {
        self.0.phase()
    }

    /// The identity of the element, if it has one.
    pub closed spec fn identity(&self) -> Option<ElementId> {
        self.0.identity()
    }

    /// The frame that `last` leaves after the element, as it stands, has
    /// been taken through `calls` in turn.
    pub closed spec fn frame_after(&self, calls: Seq<StageCall>, last: StageCall) -> Frame {
        self.0.frame_after(calls, last)
    }

    /// This is `element`, standing at `progress`: the same phase and
    /// identity, and every stage from here on yields what the stage of
    /// `element` yields on the state that is kept.
    pub open spec fn erases<E: Element<ViewState = V>>(
        &self,
        element: E,
        progress: Progress<E::ElementState>,
    ) -> bool {
        &&& self.phase() == progress.phase()
        &&& self.identity() == element.identity()
        &&& forall|calls: Seq<StageCall>, last: StageCall| #[trigger]
            self.frame_after(calls, last) == produced_after(element, progress, calls, last)
    }

    /// This is `before` after `call`: from here on it yields what `before`
    /// yields once `call` has been run.
    pub open spec fn follows(&self, before: AnyElement<V>, call: StageCall) -> bool {
        &&& self.identity() == before.identity()
        &&& forall|calls: Seq<StageCall>, last: StageCall| #[trigger]
            self.frame_after(calls, last) == before.frame_after(seq![call] + calls, last)
    }

    /// Erases the type of `element`, which has not been through any stage.
    pub fn new<E: Element<ViewState = V> + 'static>(element: E) -> (r: Self)
        ensures
            r.erases(element, Progress::Start),
    {
        AnyElement(Box::new(Rendered { element, progress: Progress::Start }))
    }

    /// The stage that the element has reached, for callers that have to
    /// test it before they ask for the next stage.
    pub fn current_phase(&self) -> (r: Phase)
        ensures
            r == self.phase(),
    {
        self.0.current_phase()
    }

    /// Initializes the element for a frame, with the state it was last left
    /// in, if it has been initialized before.
    pub fn initialize(&mut self, view_state: &mut V, cx: &mut ViewContext<V>)
        ensures
            final(self).phase() is Initialized,
            final(cx)@ == old(self).frame_after(
                Seq::empty(),
                StageCall::Initialize { frame: old(cx)@ },
            ),
            final(self).follows(*old(self), StageCall::Initialize { frame: old(cx)@ }),
            final(cx)@.extends(old(cx)@),
    {
        self.0.initialize(view_state, cx)
    }

    /// Lays the element out, in the state that `initialize` left. It must
    /// have been initialized for this frame.
    pub fn layout(&mut self, view_state: &mut V, cx: &mut ViewContext<V>) -> (r: LayoutId)
        requires
            old(self).phase() is Initialized,
        ensures
            final(self).phase() is LayoutRequested,
            final(cx)@ == old(self).frame_after(
                Seq::empty(),
                StageCall::Layout { frame: old(cx)@ },
            ),
            final(self).follows(*old(self), StageCall::Layout { frame: old(cx)@ }),
            final(cx)@.extends(old(cx)@),
            r.0 + 1 == final(cx)@.layouts.len(),
    {
        self.0.layout(view_state, cx)
    }

    /// Paints the element at `bounds`, in the state that `layout` left. It
    /// must have been laid out for this frame.
    pub fn paint(&mut self, bounds: Bounds<Pixels>, view_state: &mut V, cx: &mut ViewContext<V>)
        requires
            old(self).phase() is LayoutRequested,
        ensures
            final(self).phase() is Painted,
            final(cx)@ == old(self).frame_after(
                Seq::empty(),
                StageCall::Paint { bounds, frame: old(cx)@ },
            ),
            final(self).follows(*old(self), StageCall::Paint { bounds, frame: old(cx)@ }),
            final(cx)@.extends(old(cx)@),
    {
        self.0.paint(bounds, view_state, cx)
    }
}

/// An erased element that follows `before` after a stage in order is the
/// same element, standing where the stage has taken it.
pub proof fn lemma_erased_element_advances<V, E: Element<ViewState = V>>(
    after: AnyElement<V>,
    before: AnyElement<V>,
    element: E,
    progress: Progress<E::ElementState>,
    call: StageCall,
)
    requires
        before.erases(element, progress),
        after.follows(before, call),
        call.in_order(progress.phase()),
        after.phase() == advanced(element, progress, call).phase(),
    ensures
        after.erases(element, advanced(element, progress, call)),
        before.frame_after(Seq::empty(), call) == produced(element, progress, call),
{
    assert forall|calls: Seq<StageCall>, last: StageCall| #[trigger]
        after.frame_after(calls, last) == produced_after(
            element,
            advanced(element, progress, call),
            calls,
            last,
        ) by {
        lemma_produced_after_first(element, progress, call, calls, last);
    }
}

/// An erased element runs as the element it was made from. Taken through a
/// frame from the start, its stages yield what the stages of the element
/// yield, each on the state that the stage before has left.
pub proof fn lemma_erased_element_runs_as_the_element<V, E: Element<ViewState = V>>(
    erased: AnyElement<V>,
    element: E,
    at_initialize: Frame,
    at_layout: Frame,
    bounds: Bounds<Pixels>,
    at_paint: Frame,
)
    requires
        erased.erases(element, Progress::Start),
    ensures
        ({
            let initialize = StageCall::Initialize { frame: at_initialize };
            let layout = StageCall::Layout { frame: at_layout };
            let paint = StageCall::Paint { bounds, frame: at_paint };
            let initialized = element.initialized_state(None, at_initialize);
            let laid_out = element.laid_out_state(initialized, at_layout);
            &&& erased.frame_after(Seq::empty(), initialize) == element.initialized_frame(
                None,
                at_initialize,
            )
            &&& erased.frame_after(seq![initialize], layout) == element.laid_out_frame(
                initialized,
                at_layout,
            )
            &&& erased.frame_after(seq![initialize, layout], paint) == element.painted_frame(
                bounds,
                laid_out,
                at_paint,
            )
        }),
{
    let initialize = StageCall::Initialize { frame: at_initialize };
    let layout = StageCall::Layout { frame: at_layout };
    let paint = StageCall::Paint { bounds, frame: at_paint };
    let start = Progress::<E::ElementState>::Start;
    let first = advanced(element, start, initialize);
    assert(seq![initialize] =~= seq![initialize] + Seq::empty());
    assert(seq![initialize, layout] =~= seq![initialize] + seq![layout]);
    assert(seq![layout] =~= seq![layout] + Seq::empty());
    lemma_produced_after_first(element, start, initialize, Seq::empty(), layout);
    lemma_produced_after_first(element, start, initialize, seq![layout], paint);
    lemma_produced_after_first(element, first, layout, Seq::empty(), paint);
}

/// Something that can stand in a tree of elements of any type.
pub trait IntoAnyElement<V>: Sized {
    fn into_any(self) -> (r: AnyElement<V>)
        ensures
            r.phase() is Start,
    ;
}

} // verus!
