use svg_element::{black, hsla, point, px, size, Bounds, ElementId, Hsla, Pixels, SharedString};

fn bounds(x: i32, y: i32, width: i32, height: i32) -> Bounds<Pixels> {
    Bounds { origin: point(px(x), px(y)), size: size(px(width), px(height)) }
}

#[test]
fn bounds_hold_their_origin_but_not_their_far_edge() {
    let b = bounds(0, 0, 16, 16);
    assert!(b.contains_point(&point(px(0), px(0))));
    assert!(b.contains_point(&point(px(15), px(15))));
    assert!(!b.contains_point(&point(px(16), px(15))));
    assert!(!b.contains_point(&point(px(15), px(16))));
    assert!(!b.contains_point(&point(px(-1), px(0))));
    assert!(!b.contains_point(&point(px(0), px(-1))));
}

#[test]
fn empty_and_negative_bounds_hold_nothing() {
    assert!(!bounds(5, 5, 0, 10).contains_point(&point(px(5), px(5))));
    assert!(!bounds(5, 5, 10, 0).contains_point(&point(px(5), px(5))));
    assert!(!bounds(5, 5, -3, 10).contains_point(&point(px(4), px(5))));
}

#[test]
fn far_edge_beyond_the_integer_range_is_still_an_edge() {
    let b = bounds(i32::MAX - 1, i32::MAX - 1, i32::MAX, i32::MAX);
    assert!(b.contains_point(&point(px(i32::MAX), px(i32::MAX))));
    assert!(b.contains_point(&point(px(i32::MAX - 1), px(i32::MAX - 1))));
    assert!(!b.contains_point(&point(px(i32::MAX - 2), px(i32::MAX))));
    let low = bounds(i32::MIN, i32::MIN, 1, 1);
    assert!(low.contains_point(&point(px(i32::MIN), px(i32::MIN))));
    assert!(!low.contains_point(&point(px(i32::MIN + 1), px(i32::MIN))));
}

#[test]
fn black_is_opaque() {
    assert_eq!(black(), Hsla { h: 0, s: 0, l: 0, a: 255 });
    assert_eq!(hsla(1, 2, 3, 4), Hsla { h: 1, s: 2, l: 3, a: 4 });
}

#[test]
fn shared_strings_are_equal_by_text() {
    let borrowed = SharedString::from("icons/check.svg");
    let owned = SharedString::from(String::from("icons/check.svg"));
    assert_eq!(borrowed, owned);
    assert!(borrowed.same_as(&owned));
    assert_eq!(owned.as_str(), "icons/check.svg");
    assert_ne!(borrowed, SharedString::from("icons/check.svG"));
    assert_ne!(borrowed, SharedString::from("icons/check"));
    assert_ne!(SharedString::from("é"), SharedString::from("e"));
    assert_eq!(SharedString::from(""), SharedString::from(String::new()));
}

#[test]
fn cloned_handle_holds_the_same_text() {
    let owned = SharedString::from(String::from("icons/check.svg"));
    let copy = owned.clone();
    assert_eq!(copy.as_str(), "icons/check.svg");
    assert_eq!(copy, owned);
    drop(owned);
    assert_eq!(copy.as_str(), "icons/check.svg");
    let borrowed = SharedString::from("static");
    assert_eq!(borrowed.clone().as_str(), "static");
}

#[test]
fn element_ids_come_from_numbers_and_names() {
    assert_eq!(ElementId::from(3usize), ElementId::Number(3));
    assert_eq!(ElementId::from("name"), ElementId::Name(SharedString::from("name")));
    assert_eq!(
        ElementId::from(SharedString::from(String::from("name"))),
        ElementId::from("name")
    );
    assert_ne!(ElementId::from("3"), ElementId::from(3usize));
    let id = ElementId::from("name");
    assert_eq!(id.clone(), id);
}
