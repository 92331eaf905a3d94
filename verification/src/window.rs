//! The per-frame context that the engine lends to every lifecycle stage.

use crate::color::Hsla;
use crate::geometry::{Bounds, Pixels, Point};
use crate::shared_string::SharedString;
use crate::style::Style;
use std::marker::PhantomData;
use vstd::prelude::*;

verus! {

/// Names a focusable region of the window.
#[derive(Clone, Copy, Debug, PartialEq, Eq, Hash)]
pub struct FocusId(pub u64);

/// The engine's answer to "where is the keyboard focus": the focused region,
/// the regions that enclose it and the regions that lie inside it.
#[derive(Debug)]
pub struct FocusState {
    pub focused: Option<FocusId>,
    pub ancestors: Vec<FocusId>,
    pub descendants: Vec<FocusId>,
}

/// A layout node handed out by the layout engine for the current frame.
#[derive(Clone, Copy, Debug, PartialEq, Eq, Hash)]
pub struct LayoutId(pub usize);

/// Something drawn into the scene.
#[derive(Debug, PartialEq, Eq)]
pub enum Primitive {
    /// A filled rectangle.
    Quad { bounds: Bounds<Pixels>, background: Hsla },
    /// A vector graphic, drawn at `bounds` and tinted with `color`.
    Sprite { bounds: Bounds<Pixels>, path: SharedString, color: Hsla },
}

/// Why a resource could not be drawn.
#[derive(Debug, PartialEq, Eq)]
pub enum DrawError {
    /// No drawable resource is known under this path.
    ResourceNotFound { path: SharedString },
}

/// What a `ViewContext` stands for: the engine's inputs to the frame and what
/// the elements have produced so far.
pub struct Frame {
    pub mouse_position: Point<Pixels>,
    pub focused: Option<FocusId>,
    pub focus_ancestors: Set<FocusId>,
    pub focus_descendants: Set<FocusId>,
    pub assets: Set<Seq<char>>,
    pub layouts: Seq<Style>,
    pub scene: Seq<Primitive>,
    pub diagnostics: Seq<DrawError>,
}

impl Frame {
    pub open spec fn is_focused(self, id: FocusId) -> bool {
        self.focused == Some(id)
    }

    /// The focus is on `id` or on a region inside it.
    pub open spec fn contains_focused(self, id: FocusId) -> bool {
        self.is_focused(id) || self.focus_ancestors.contains(id)
    }

    /// `id` is the focused region or lies inside it.
    pub open spec fn within_focused(self, id: FocusId) -> bool {
        self.is_focused(id) || self.focus_descendants.contains(id)
    }

    pub open spec fn resolves(self, path: Seq<char>) -> bool {
        self.assets.contains(path)
    }

    pub open spec fn with_layout(self, style: Style) -> Frame {
        Frame { layouts: self.layouts.push(style), ..self }
    }

    pub open spec fn with_quad(self, bounds: Bounds<Pixels>, background: Hsla) -> Frame {
        Frame { scene: self.scene.push(Primitive::Quad { bounds, background }), ..self }
    }

    pub open spec fn with_sprite(
        self,
        bounds: Bounds<Pixels>,
        path: SharedString,
        color: Hsla,
    ) -> Frame {
        Frame { scene: self.scene.push(Primitive::Sprite { bounds, path, color }), ..self }
    }

    pub open spec fn logged(self, error: DrawError) -> Frame {
        Frame { diagnostics: self.diagnostics.push(error), ..self }
    }

    /// The frame after one request to draw the resource at `path`, failures
    /// recorded rather than raised: a sprite if the path resolves, else one
    /// diagnostic that names the path.
    pub open spec fn svg_drawn(
        self,
        bounds: Bounds<Pixels>,
        path: SharedString,
        color: Hsla,
    ) -> Frame {
        if self.resolves(path@) {
            self.with_sprite(bounds, path, color)
        } else {
            self.logged(DrawError::ResourceNotFound { path })
        }
    }

    /// `self` is a later state of the frame `earlier`: the engine's inputs
    /// are the same and nothing that was requested, drawn or logged is gone.
    pub open spec fn extends(self, earlier: Frame) -> bool {
        &&& self.mouse_position == earlier.mouse_position
        &&& self.focused == earlier.focused
        &&& self.focus_ancestors == earlier.focus_ancestors
        &&& self.focus_descendants == earlier.focus_descendants
        &&& self.assets == earlier.assets
        &&& earlier.layouts.is_prefix_of(self.layouts)
        &&& earlier.scene.is_prefix_of(self.scene)
        &&& earlier.diagnostics.is_prefix_of(self.diagnostics)
    }
}

/// The texts that a list of handles stands for.
pub open spec fn texts(handles: Seq<SharedString>) -> Set<Seq<char>> {
    Set::new(|t: Seq<char>| exists|i: int| 0 <= i < handles.len() && (#[trigger] handles[i])@ == t)
}

/// The context of one frame. The engine sets the mouse position and the
/// focus; elements request layouts, draw into the scene and report failures.
pub struct ViewContext<V> {
    mouse_position: Point<Pixels>,
    focus: FocusState,
    assets: Vec<SharedString>,
    layouts: Vec<Style>,
    scene: Vec<Primitive>,
    diagnostics: Vec<DrawError>,
    view_state: PhantomData<V>,
}

impl<V> View for ViewContext<V> {
    type V = Frame;

    closed spec fn view(&self) -> Frame {
        Frame {
            mouse_position: self.mouse_position,
            focused: self.focus.focused,
            focus_ancestors: self.focus.ancestors@.to_set(),
            focus_descendants: self.focus.descendants@.to_set(),
            assets: texts(self.assets@),
            layouts: self.layouts@,
            scene: self.scene@,
            diagnostics: self.diagnostics@,
        }
    }
}

fn holds(ids: &Vec<FocusId>, id: FocusId) -> (r: bool)
    ensures
        r == ids@.to_set().contains(id),
{
    let mut i: usize = 0;
    while i < ids.len()
        invariant
            i <= ids.len(),
            forall|j: int| 0 <= j < i ==> ids@[j] != id,
        decreases ids.len() - i,
    {
        if ids[i].0 == id.0 {
            assert(ids@.contains(id));
            return true;
        }
        i += 1;
    }
    false
}

impl<V> ViewContext<V> {
    /// A context for a new frame: the mouse at the origin, nothing focused,
    /// nothing requested, drawn or logged. `assets` lists the paths of the
    /// resources that can be drawn.
    pub fn new(assets: Vec<SharedString>) -> (r: Self)
        ensures
            r@.mouse_position == (Point { x: Pixels(0), y: Pixels(0) }),
            r@.focused is None,
            r@.focus_ancestors == Set::<FocusId>::empty(),
            r@.focus_descendants == Set::<FocusId>::empty(),
            r@.assets == texts(assets@),
            r@.layouts == Seq::<Style>::empty(),
            r@.scene == Seq::<Primitive>::empty(),
            r@.diagnostics == Seq::<DrawError>::empty(),
    {
        let r = ViewContext {
            mouse_position: Point { x: Pixels(0), y: Pixels(0) },
            focus: FocusState { focused: None, ancestors: Vec::new(), descendants: Vec::new() },
            assets,
            layouts: Vec::new(),
            scene: Vec::new(),
            diagnostics: Vec::new(),
            view_state: PhantomData,
        };
        assert(r.focus.ancestors@.to_set() =~= Set::<FocusId>::empty());
        assert(r.focus.descendants@.to_set() =~= Set::<FocusId>::empty());
        r
    }

    pub fn set_mouse_position(&mut self, position: Point<Pixels>)
        ensures
            final(self)@ == (Frame { mouse_position: position, ..old(self)@ }),
    {
        self.mouse_position = position;
    }

    pub fn set_focus(&mut self, focus: FocusState)
        ensures
            final(self)@ == (Frame {
                focused: focus.focused,
                focus_ancestors: focus.ancestors@.to_set(),
                focus_descendants: focus.descendants@.to_set(),
                ..old(self)@
            }),
    {
        self.focus = focus;
    }

    pub fn mouse_position(&self) -> (r: Point<Pixels>)
        ensures
            r == self@.mouse_position,
    {
        self.mouse_position
    }

    pub fn is_focused(&self, id: FocusId) -> (r: bool)
        ensures
            r == self@.is_focused(id),
    {
        match self.focus.focused {
            Some(focused) => focused.0 == id.0,
            None => false,
        }
    }

    pub fn contains_focused(&self, id: FocusId) -> (r: bool)
        ensures
            r == self@.contains_focused(id),
    {
        self.is_focused(id) || holds(&self.focus.ancestors, id)
    }

    pub fn within_focused(&self, id: FocusId) -> (r: bool)
        ensures
            r == self@.within_focused(id),
    {
        self.is_focused(id) || holds(&self.focus.descendants, id)
    }

    /// Whether a drawable resource is known under `path`.
    pub fn resolves(&self, path: &SharedString) -> (r: bool)
        ensures
            r == self@.resolves(path@),
    {
        let mut i: usize = 0;
        while i < self.assets.len()
            invariant
                i <= self.assets.len(),
                forall|j: int| 0 <= j < i ==> self.assets@[j]@ != path@,
            decreases self.assets.len() - i,
        {
            if self.assets[i].same_as(path) {
                return true;
            }
            i += 1;
        }
        false
    }

    /// Asks the layout engine for a node styled with `style`.
    pub fn request_layout(&mut self, style: Style) -> (r: LayoutId)
        ensures
            final(self)@ == old(self)@.with_layout(style),
            r.0 == old(self)@.layouts.len(),
    {
        let id = LayoutId(self.layouts.len());
        self.layouts.push(style);
        id
    }

    /// Draws a filled rectangle.
    pub fn paint_quad(&mut self, bounds: Bounds<Pixels>, background: Hsla)
        ensures
            final(self)@ == old(self)@.with_quad(bounds, background),
    {
        self.scene.push(Primitive::Quad { bounds, background });
    }

    /// Draws the resource at `path` with `color` as its tint. Fails, and
    /// draws nothing, exactly when the path does not resolve.
    pub fn paint_svg(&mut self, bounds: Bounds<Pixels>, path: SharedString, color: Hsla) -> (r:
        Result<(), DrawError>)
        ensures
            r is Ok <==> old(self)@.resolves(path@),
            r is Ok ==> final(self)@ == old(self)@.with_sprite(bounds, path, color),
            r is Err ==> final(self)@ == old(self)@ && r == Err::<(), DrawError>(
                DrawError::ResourceNotFound { path },
            ),
    {
        if self.resolves(&path) {
            self.scene.push(Primitive::Sprite { bounds, path, color });
            Ok(())
        } else {
            Err(DrawError::ResourceNotFound { path })
        }
    }

    /// Turns a failure into a diagnostic of this frame, so that the caller
    /// can go on: `Some` of what succeeded, `None` after recording the error.
    pub fn log_err<T>(&mut self, result: Result<T, DrawError>) -> (r: Option<T>)
        ensures
            match result {
                Ok(value) => r == Some(value) && final(self)@ == old(self)@,
                Err(error) => r is None && final(self)@ == old(self)@.logged(error),
            },
    {
        match result {
            Ok(value) => Some(value),
            Err(error) => {
                self.diagnostics.push(error);
                None
            },
        }
    }

    /// The styles of the layout nodes requested so far, by `LayoutId`.
    pub fn layouts(&self) -> (r: &Vec<Style>)
        ensures
            r@ == self@.layouts,
    {
        &self.layouts
    }

    /// What has been drawn so far, in drawing order.
    pub fn scene(&self) -> (r: &Vec<Primitive>)
        ensures
            r@ == self@.scene,
    {
        &self.scene
    }

    /// The failures recorded so far, oldest first.
    pub fn diagnostics(&self) -> (r: &Vec<DrawError>)
        ensures
            r@ == self@.diagnostics,
    {
        &self.diagnostics
    }
}

} // verus!
