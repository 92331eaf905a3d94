use svg_element::{
    black, hsla, point, px, size, Bounds, DrawError, FocusId, FocusState, Length, Pixels,
    Primitive, SharedString, Style, StyleRefinement, TextStyleRefinement, ViewContext,
};

fn bounds(x: i32, y: i32, width: i32, height: i32) -> Bounds<Pixels> {
    Bounds { origin: point(px(x), px(y)), size: size(px(width), px(height)) }
}

#[test]
fn new_context_is_empty() {
    let cx: ViewContext<()> = ViewContext::new(vec![SharedString::from("a.svg")]);
    assert_eq!(cx.mouse_position(), point(px(0), px(0)));
    assert!(!cx.is_focused(FocusId(0)));
    assert!(!cx.contains_focused(FocusId(0)));
    assert!(!cx.within_focused(FocusId(0)));
    assert!(cx.layouts().is_empty());
    assert!(cx.scene().is_empty());
    assert!(cx.diagnostics().is_empty());
}

#[test]
fn resolves_compares_text_not_handles() {
    let cx: ViewContext<()> = ViewContext::new(vec![
        SharedString::from("icons/check.svg"),
        SharedString::from(String::from("icons/ünïcödé.svg")),
    ]);
    assert!(cx.resolves(&SharedString::from(String::from("icons/check.svg"))));
    assert!(cx.resolves(&SharedString::from("icons/ünïcödé.svg")));
    assert!(!cx.resolves(&SharedString::from("icons/check.sv")));
    assert!(!cx.resolves(&SharedString::from("icons/check.svgs")));
    assert!(!cx.resolves(&SharedString::from("icons/chec_.svg")));
    assert!(!cx.resolves(&SharedString::from("")));
    let empty: ViewContext<()> = ViewContext::new(Vec::new());
    assert!(!empty.resolves(&SharedString::from("icons/check.svg")));
}

#[test]
fn paint_svg_draws_what_resolves_and_fails_on_the_rest() {
    let mut cx: ViewContext<()> = ViewContext::new(vec![SharedString::from("a.svg")]);
    assert_eq!(cx.paint_svg(bounds(0, 0, 1, 1), SharedString::from("a.svg"), black()), Ok(()));
    assert_eq!(
        cx.paint_svg(bounds(0, 0, 1, 1), SharedString::from("b.svg"), black()),
        Err(DrawError::ResourceNotFound { path: SharedString::from("b.svg") })
    );
    assert_eq!(
        cx.scene(),
        &vec![Primitive::Sprite {
            bounds: bounds(0, 0, 1, 1),
            path: SharedString::from("a.svg"),
            color: black(),
        }]
    );
    assert!(cx.diagnostics().is_empty());
}

#[test]
fn log_err_records_failures_and_passes_successes() {
    let mut cx: ViewContext<()> = ViewContext::new(Vec::new());
    assert_eq!(cx.log_err(Ok(5u8)), Some(5));
    assert!(cx.diagnostics().is_empty());
    let failure = DrawError::ResourceNotFound { path: SharedString::from("b.svg") };
    assert_eq!(cx.log_err::<u8>(Err(failure)), None);
    let drawn = cx.paint_svg(bounds(0, 0, 1, 1), SharedString::from("c.svg"), black());
    assert_eq!(cx.log_err(drawn), None);
    assert_eq!(
        cx.diagnostics(),
        &vec![
            DrawError::ResourceNotFound { path: SharedString::from("b.svg") },
            DrawError::ResourceNotFound { path: SharedString::from("c.svg") },
        ]
    );
    assert!(cx.scene().is_empty());
}

#[test]
fn layout_ids_count_the_requests() {
    let mut cx: ViewContext<()> = ViewContext::new(Vec::new());
    let mut wide = Style::default();
    wide.size.width = Length::Px(px(100));
    assert_eq!(cx.request_layout(Style::default()).0, 0);
    assert_eq!(cx.request_layout(wide).0, 1);
    assert_eq!(cx.layouts(), &vec![Style::default(), wide]);
}

#[test]
fn quads_are_kept_in_drawing_order() {
    let mut cx: ViewContext<()> = ViewContext::new(Vec::new());
    cx.paint_quad(bounds(0, 0, 1, 1), black());
    cx.paint_quad(bounds(1, 1, 2, 2), hsla(1, 2, 3, 4));
    assert_eq!(
        cx.scene(),
        &vec![
            Primitive::Quad { bounds: bounds(0, 0, 1, 1), background: black() },
            Primitive::Quad { bounds: bounds(1, 1, 2, 2), background: hsla(1, 2, 3, 4) },
        ]
    );
}

#[test]
fn focus_queries_tell_the_three_relations_apart() {
    let mut cx: ViewContext<()> = ViewContext::new(Vec::new());
    cx.set_focus(FocusState {
        focused: Some(FocusId(3)),
        ancestors: vec![FocusId(1), FocusId(2)],
        descendants: vec![FocusId(4)],
    });
    assert!(cx.is_focused(FocusId(3)));
    assert!(cx.contains_focused(FocusId(3)));
    assert!(cx.within_focused(FocusId(3)));

    assert!(!cx.is_focused(FocusId(2)));
    assert!(cx.contains_focused(FocusId(2)));
    assert!(cx.contains_focused(FocusId(1)));
    assert!(!cx.within_focused(FocusId(2)));

    assert!(!cx.is_focused(FocusId(4)));
    assert!(!cx.contains_focused(FocusId(4)));
    assert!(cx.within_focused(FocusId(4)));

    assert!(!cx.contains_focused(FocusId(5)));
    assert!(!cx.within_focused(FocusId(5)));

    cx.set_focus(FocusState { focused: None, ancestors: vec![FocusId(1)], descendants: vec![] });
    assert!(!cx.is_focused(FocusId(1)));
    assert!(cx.contains_focused(FocusId(1)));
}

#[test]
fn setting_engine_inputs_keeps_the_frame() {
    let mut cx: ViewContext<()> = ViewContext::new(vec![SharedString::from("a.svg")]);
    cx.paint_quad(bounds(0, 0, 1, 1), black());
    cx.set_mouse_position(point(px(7), px(-7)));
    cx.set_focus(FocusState { focused: Some(FocusId(1)), ancestors: vec![], descendants: vec![] });
    assert_eq!(cx.mouse_position(), point(px(7), px(-7)));
    assert_eq!(cx.scene().len(), 1);
    assert!(cx.resolves(&SharedString::from("a.svg")));
}

#[test]
fn refine_replaces_exactly_the_fields_that_are_set() {
    let mut style = Style {
        size: size(Length::Px(px(1)), Length::Px(px(2))),
        background: Some(black()),
        text: TextStyleRefinement { color: Some(hsla(1, 1, 1, 1)) },
    };
    let untouched = style;
    style.refine(&StyleRefinement::default());
    assert_eq!(style, untouched);
    style.refine(&StyleRefinement {
        size: size(None, Some(Length::Auto)),
        background: None,
        text: TextStyleRefinement { color: Some(hsla(2, 2, 2, 2)) },
    });
    assert_eq!(
        style,
        Style {
            size: size(Length::Px(px(1)), Length::Auto),
            background: Some(black()),
            text: TextStyleRefinement { color: Some(hsla(2, 2, 2, 2)) },
        }
    );
    style.refine(&StyleRefinement {
        size: size(Some(Length::Px(px(5))), None),
        background: Some(hsla(3, 3, 3, 3)),
        text: TextStyleRefinement { color: None },
    });
    assert_eq!(
        style,
        Style {
            size: size(Length::Px(px(5)), Length::Auto),
            background: Some(hsla(3, 3, 3, 3)),
            text: TextStyleRefinement { color: Some(hsla(2, 2, 2, 2)) },
        }
    );
}
