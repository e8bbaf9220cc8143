//! Short names for new elements.

use vstd::prelude::*;
use crate::structs::{ImageElement, ListElement, SvgElement, TextElement, UniformListElement};

verus! {

/// A new vector-graphics element.
pub fn svg() -> (element: SvgElement)
    ensures
        element == (SvgElement {  }),
{
    SvgElement::new()
}

/// A new image element.
pub fn img() -> (element: ImageElement)
    ensures
        element == (ImageElement {  }),
{
    ImageElement::new()
}

/// A new text element; the content is not kept.
pub fn text(_content: String) -> (element: TextElement)
    ensures
        element == (TextElement {  }),
{
    TextElement::new()
}

/// A new list element.
pub fn list() -> (element: ListElement)
    ensures
        element == (ListElement {  }),
{
    ListElement::new()
}

/// A new list element whose items have one size.
pub fn uniform_list() -> (element: UniformListElement)
    ensures
        element == (UniformListElement {  }),
{
    UniformListElement::new()
}

} // verus!
