use gpui_bridge::enums::{BorderStyle, CursorStyle, Display, FlexDirection, WindowKind};
use gpui_bridge::functions::{img, list, svg, text, uniform_list};
use gpui_bridge::get_gpui_version;
use gpui_bridge::structs::{
    Entity, EntityId, FocusHandle, ImageElement, KeyModifiers, KeyboardEvent, ListElement,
    Model, SvgElement, TextElement, UniformListElement, View,
};

#[test]
fn version_of_the_toolkit() {
    assert_eq!(get_gpui_version(), "0.2.2");
}

#[test]
fn enums_compare_by_variant() {
    assert_eq!(FlexDirection::Row, FlexDirection::Row);
    assert_ne!(FlexDirection::Row, FlexDirection::Column);
    assert_ne!(Display::Flex, Display::Nothing);
    assert_ne!(BorderStyle::Solid, BorderStyle::Nothing);
    assert_eq!(WindowKind::PopUp, WindowKind::PopUp);
    let cursor = CursorStyle::Grab;
    let copy = cursor;
    assert_eq!(cursor, copy);
}

#[test]
fn element_builders_return_the_element() {
    assert_eq!(img(), ImageElement::new());
    assert_eq!(img().source("a.png".to_string()), ImageElement {});
    assert_eq!(svg(), SvgElement::new());
    assert_eq!(svg().path("M0 0".to_string()), SvgElement {});
    assert_eq!(text("hello".to_string()), TextElement::new());
    assert_eq!(TextElement::new().text("x".to_string()), TextElement {});
    assert_eq!(list(), ListElement::new());
    assert_eq!(uniform_list(), UniformListElement::new());
    assert_eq!(uniform_list().items(3), UniformListElement {});
}

#[test]
fn handles_hold_their_identifier() {
    assert_eq!(FocusHandle { id: 7 }.id, 7);
    assert_eq!(View { id: 3 }, View { id: 3 });
    assert_ne!(Model { id: 3 }, Model { id: 4 });
    assert_eq!(EntityId { id: -1 }, EntityId { id: -1 });
    assert_ne!(Entity { id: 1 }, Entity { id: 2 });
    let event = KeyboardEvent {
        key: "a".to_string(),
        modifiers: KeyModifiers { shift: true, control: false, alt: false, meta: false },
    };
    assert!(event.modifiers.shift);
    assert_eq!(event.key, "a");
}
