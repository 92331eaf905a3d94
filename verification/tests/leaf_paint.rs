use svg_element::{
    black, hsla, point, px, size, svg, Bounds, DivState, DrawError, Element, ElementId,
    InteractiveElementState, Length, Pixels, Primitive, SharedString, StatefulInteractive,
    StatelessInteractive, Style, Styled, TextStyleRefinement, ViewContext,
};

struct Workspace {
    frames: u32,
}

fn bounds(x: i32, y: i32, width: i32, height: i32) -> Bounds<Pixels> {
    Bounds { origin: point(px(x), px(y)), size: size(px(width), px(height)) }
}

fn context() -> ViewContext<Workspace> {
    let mut cx = ViewContext::new(vec![
        SharedString::from("icons/check.svg"),
        SharedString::from(String::from("icons/close.svg")),
    ]);
    cx.set_mouse_position(point(px(-1), px(-1)));
    cx
}

fn sprite(at: Bounds<Pixels>, path: &'static str, color: svg_element::Hsla) -> Primitive {
    Primitive::Sprite { bounds: at, path: SharedString::from(path), color }
}

#[test]
fn check_icon_is_drawn_once_in_black() {
    let mut workspace = Workspace { frames: 0 };
    let mut cx = context();
    let mut leaf = svg::<Workspace>().path("icons/check.svg");
    leaf.style().text.color = Some(black());

    assert_eq!(Element::id(&leaf), None);
    let mut state = leaf.initialize(&mut workspace, None, &mut cx);
    leaf.layout(&mut workspace, &mut state, &mut cx);
    leaf.paint(bounds(0, 0, 16, 16), &mut workspace, &mut state, &mut cx);

    assert_eq!(
        cx.scene(),
        &vec![Primitive::Sprite {
            bounds: bounds(0, 0, 16, 16),
            path: SharedString::from("icons/check.svg"),
            color: hsla(0, 0, 0, 255),
        }]
    );
    assert!(cx.diagnostics().is_empty());
    assert_eq!(workspace.frames, 0);
}

#[test]
fn leaf_without_path_paints_as_its_base() {
    let mut workspace = Workspace { frames: 0 };
    let mut cx = context();
    let mut leaf = svg::<Workspace>();
    leaf.style().text.color = Some(black());
    leaf.style().background = Some(hsla(10, 20, 30, 255));
    let mut state = DivState::default();
    leaf.paint(bounds(4, 4, 8, 8), &mut workspace, &mut state, &mut cx);
    assert_eq!(
        cx.scene(),
        &vec![Primitive::Quad { bounds: bounds(4, 4, 8, 8), background: hsla(10, 20, 30, 255) }]
    );
    assert!(cx.diagnostics().is_empty());
}

#[test]
fn leaf_without_path_or_background_draws_nothing() {
    let mut workspace = Workspace { frames: 0 };
    let mut cx = context();
    let mut leaf = svg::<Workspace>();
    leaf.style().text.color = Some(black());
    let mut state = DivState::default();
    leaf.paint(bounds(0, 0, 16, 16), &mut workspace, &mut state, &mut cx);
    assert!(cx.scene().is_empty());
    assert!(cx.diagnostics().is_empty());
}

#[test]
fn leaf_without_color_draws_no_resource() {
    let mut workspace = Workspace { frames: 0 };
    let mut cx = context();
    let mut leaf = svg::<Workspace>().path("icons/check.svg");
    let mut state = DivState::default();
    leaf.paint(bounds(0, 0, 16, 16), &mut workspace, &mut state, &mut cx);
    assert!(cx.scene().is_empty());
    assert!(cx.diagnostics().is_empty());
}

#[test]
fn leaf_without_color_and_with_unknown_path_logs_nothing() {
    let mut workspace = Workspace { frames: 0 };
    let mut cx = context();
    let mut leaf = svg::<Workspace>().path("icons/missing.svg");
    let mut state = DivState::default();
    leaf.paint(bounds(0, 0, 16, 16), &mut workspace, &mut state, &mut cx);
    assert!(cx.scene().is_empty());
    assert!(cx.diagnostics().is_empty());
}

#[test]
fn resource_is_drawn_after_the_background_with_bounds_path_and_color() {
    let mut workspace = Workspace { frames: 0 };
    let mut cx = context();
    let tint = hsla(120, 200, 100, 128);
    let mut leaf = svg::<Workspace>().path(String::from("icons/close.svg"));
    leaf.style().text.color = Some(tint);
    leaf.style().background = Some(black());
    let mut state = DivState::default();
    leaf.paint(bounds(-3, 7, 24, 12), &mut workspace, &mut state, &mut cx);
    assert_eq!(
        cx.scene(),
        &vec![
            Primitive::Quad { bounds: bounds(-3, 7, 24, 12), background: black() },
            sprite(bounds(-3, 7, 24, 12), "icons/close.svg", tint),
        ]
    );
    assert!(cx.diagnostics().is_empty());
}

#[test]
fn painting_twice_draws_twice_from_the_same_path() {
    let mut workspace = Workspace { frames: 0 };
    let mut cx = context();
    let mut leaf = svg::<Workspace>().path(String::from("icons/check.svg"));
    leaf.style().text.color = Some(black());
    let mut state = DivState::default();
    leaf.paint(bounds(0, 0, 16, 16), &mut workspace, &mut state, &mut cx);
    leaf.paint(bounds(16, 0, 16, 16), &mut workspace, &mut state, &mut cx);
    assert_eq!(
        cx.scene(),
        &vec![
            sprite(bounds(0, 0, 16, 16), "icons/check.svg", black()),
            sprite(bounds(16, 0, 16, 16), "icons/check.svg", black()),
        ]
    );
}

#[test]
fn unresolved_path_is_logged_and_siblings_are_painted() {
    let mut workspace = Workspace { frames: 0 };
    let mut cx = context();
    let mut missing = svg::<Workspace>().path("icons/missing.svg");
    missing.style().text.color = Some(black());
    let mut check = svg::<Workspace>().path("icons/check.svg");
    check.style().text.color = Some(black());
    let mut first = DivState::default();
    let mut second = DivState::default();

    missing.paint(bounds(0, 0, 16, 16), &mut workspace, &mut first, &mut cx);
    assert!(cx.scene().is_empty());
    check.paint(bounds(16, 0, 16, 16), &mut workspace, &mut second, &mut cx);

    assert_eq!(
        cx.diagnostics(),
        &vec![DrawError::ResourceNotFound { path: SharedString::from("icons/missing.svg") }]
    );
    assert_eq!(cx.scene(), &vec![sprite(bounds(16, 0, 16, 16), "icons/check.svg", black())]);
}

#[test]
fn failed_leaf_still_paints_its_base() {
    let mut workspace = Workspace { frames: 0 };
    let mut cx = context();
    let mut missing = svg::<Workspace>().path("icons/missing.svg");
    missing.style().text.color = Some(black());
    missing.style().background = Some(hsla(1, 2, 3, 4));
    let mut state = DivState::default();
    missing.paint(bounds(0, 0, 16, 16), &mut workspace, &mut state, &mut cx);
    assert_eq!(
        cx.scene(),
        &vec![Primitive::Quad { bounds: bounds(0, 0, 16, 16), background: hsla(1, 2, 3, 4) }]
    );
    assert_eq!(cx.diagnostics().len(), 1);
}

#[test]
fn later_path_replaces_earlier_path() {
    let mut workspace = Workspace { frames: 0 };
    let mut cx = context();
    let mut leaf = svg::<Workspace>().path("icons/missing.svg").path("icons/check.svg");
    leaf.style().text.color = Some(black());
    let mut state = DivState::default();
    leaf.paint(bounds(0, 0, 16, 16), &mut workspace, &mut state, &mut cx);
    assert_eq!(cx.scene(), &vec![sprite(bounds(0, 0, 16, 16), "icons/check.svg", black())]);
    assert!(cx.diagnostics().is_empty());
}

#[test]
fn identity_is_none_until_assigned() {
    let leaf = svg::<Workspace>().path("icons/check.svg");
    assert_eq!(Element::id(&leaf), None);
    let leaf = leaf.id(7usize);
    assert_eq!(Element::id(&leaf), Some(ElementId::Number(7)));
    let named = svg::<Workspace>().id("check-icon");
    assert_eq!(Element::id(&named), Some(ElementId::Name(SharedString::from("check-icon"))));
    let by_handle = svg::<Workspace>().id(SharedString::from(String::from("check-icon")));
    assert_eq!(Element::id(&by_handle), Element::id(&named));
}

#[test]
fn assigning_identity_keeps_path_style_and_hover() {
    let mut workspace = Workspace { frames: 0 };
    let mut cx = context();
    cx.set_mouse_position(point(px(5), px(5)));
    let mut leaf = svg::<Workspace>().path("icons/check.svg");
    leaf.style().text.color = Some(black());
    leaf.stateless_interactivity().hover_style.text.color = Some(hsla(9, 9, 9, 9));
    let mut leaf = leaf.id(1usize);
    assert_eq!(leaf.stateful_interaction().id, ElementId::Number(1));
    let mut state = DivState::default();
    leaf.paint(bounds(0, 0, 16, 16), &mut workspace, &mut state, &mut cx);
    assert_eq!(
        cx.scene(),
        &vec![sprite(bounds(0, 0, 16, 16), "icons/check.svg", hsla(9, 9, 9, 9))]
    );
}

#[test]
fn style_written_through_the_leaf_is_read_by_paint() {
    let mut workspace = Workspace { frames: 0 };
    let mut cx = context();
    let mut leaf = svg::<Workspace>().path("icons/check.svg");
    let mut state = DivState::default();

    leaf.style().text.color = Some(hsla(1, 1, 1, 255));
    leaf.paint(bounds(0, 0, 16, 16), &mut workspace, &mut state, &mut cx);
    leaf.style().text.color = Some(hsla(2, 2, 2, 255));
    leaf.paint(bounds(0, 0, 16, 16), &mut workspace, &mut state, &mut cx);
    leaf.style().text = TextStyleRefinement { color: None };
    leaf.paint(bounds(0, 0, 16, 16), &mut workspace, &mut state, &mut cx);

    assert_eq!(
        cx.scene(),
        &vec![
            sprite(bounds(0, 0, 16, 16), "icons/check.svg", hsla(1, 1, 1, 255)),
            sprite(bounds(0, 0, 16, 16), "icons/check.svg", hsla(2, 2, 2, 255)),
        ]
    );
    assert_eq!(leaf.style().text.color, None);
}

#[test]
fn hover_style_tints_only_while_the_mouse_is_inside() {
    let mut workspace = Workspace { frames: 0 };
    let mut cx = context();
    let mut leaf = svg::<Workspace>().path("icons/check.svg");
    leaf.style().text.color = Some(black());
    leaf.stateless_interactivity().hover_style.text.color = Some(hsla(200, 10, 10, 255));
    let mut state = DivState::default();

    cx.set_mouse_position(point(px(15), px(15)));
    leaf.paint(bounds(0, 0, 16, 16), &mut workspace, &mut state, &mut cx);
    assert!(state.interactive.hovered);
    cx.set_mouse_position(point(px(16), px(15)));
    leaf.paint(bounds(0, 0, 16, 16), &mut workspace, &mut state, &mut cx);
    assert!(!state.interactive.hovered);

    assert_eq!(
        cx.scene(),
        &vec![
            sprite(bounds(0, 0, 16, 16), "icons/check.svg", hsla(200, 10, 10, 255)),
            sprite(bounds(0, 0, 16, 16), "icons/check.svg", black()),
        ]
    );
}

#[test]
fn active_style_applies_to_a_pressed_leaf_with_identity() {
    let mut workspace = Workspace { frames: 0 };
    let mut cx = context();
    let mut leaf = svg::<Workspace>().path("icons/check.svg").id(3usize);
    leaf.style().text.color = Some(black());
    leaf.stateful_interaction().active_style.text.color = Some(hsla(50, 50, 50, 255));

    let mut idle = DivState::default();
    leaf.paint(bounds(0, 0, 16, 16), &mut workspace, &mut idle, &mut cx);
    let mut pressed =
        DivState { interactive: InteractiveElementState { hovered: false, active: true } };
    leaf.paint(bounds(0, 0, 16, 16), &mut workspace, &mut pressed, &mut cx);

    assert_eq!(
        cx.scene(),
        &vec![
            sprite(bounds(0, 0, 16, 16), "icons/check.svg", black()),
            sprite(bounds(0, 0, 16, 16), "icons/check.svg", hsla(50, 50, 50, 255)),
        ]
    );
    assert!(pressed.interactive.active);
}

#[test]
fn initialize_hands_back_the_prior_state_or_a_fresh_one() {
    let mut workspace = Workspace { frames: 0 };
    let mut cx = context();
    let mut leaf = svg::<Workspace>();
    let fresh = leaf.initialize(&mut workspace, None, &mut cx);
    assert_eq!(
        fresh,
        DivState { interactive: InteractiveElementState { hovered: false, active: false } }
    );
    let prior = DivState { interactive: InteractiveElementState { hovered: true, active: true } };
    assert_eq!(leaf.initialize(&mut workspace, Some(prior), &mut cx), prior);
    assert!(cx.scene().is_empty());
    assert!(cx.layouts().is_empty());
}

#[test]
fn layout_requests_one_node_with_the_computed_style() {
    let mut workspace = Workspace { frames: 0 };
    let mut cx = context();
    let mut leaf = svg::<Workspace>().path("icons/check.svg");
    leaf.style().size.width = Some(Length::Px(px(16)));
    leaf.style().text.color = Some(black());
    let mut state = DivState::default();
    let first = leaf.layout(&mut workspace, &mut state, &mut cx);
    let second = leaf.layout(&mut workspace, &mut state, &mut cx);
    assert_eq!(first.0, 0);
    assert_eq!(second.0, 1);
    let expected = Style {
        size: size(Length::Px(px(16)), Length::Auto),
        background: None,
        text: TextStyleRefinement { color: Some(black()) },
    };
    assert_eq!(cx.layouts(), &vec![expected, expected]);
    assert!(cx.scene().is_empty());
}

#[test]
fn path_and_identity_given_as_they_are_stored_are_kept() {
    let mut workspace = Workspace { frames: 0 };
    let mut cx = context();
    let path = SharedString::from(String::from("icons/close.svg"));
    let mut leaf = svg::<Workspace>()
        .with_path(SharedString::from("icons/missing.svg"))
        .with_path(path.clone())
        .with_id(ElementId::Number(11));
    assert_eq!(Element::id(&leaf), Some(ElementId::Number(11)));
    assert_eq!(Element::id(&leaf), Some(ElementId::Number(11)));
    leaf.style().text.color = Some(black());
    let mut state = DivState::default();
    leaf.paint(bounds(0, 0, 16, 16), &mut workspace, &mut state, &mut cx);
    assert_eq!(
        cx.scene(),
        &vec![Primitive::Sprite { bounds: bounds(0, 0, 16, 16), path, color: black() }]
    );

    let by_value = svg::<Workspace>().path(SharedString::from("a.svg")).id(ElementId::from("a"));
    assert_eq!(Element::id(&by_value), Some(ElementId::Name(SharedString::from("a"))));
}
