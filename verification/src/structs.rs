//! Elements and handles of the UI toolkit that carry no measurements.

use vstd::prelude::*;

verus! {

/// An image element.
#[derive(Clone, Copy, Debug, PartialEq, Eq, Structural)]
pub struct ImageElement {}

impl ImageElement {
    /// An image without a source.
    pub fn new() -> (element: ImageElement)
        ensures
            element == (ImageElement {  }),
    {
        ImageElement {  }
    }

    /// The element itself: the source is not kept.
    pub fn source(&self, _src: String) -> (element: ImageElement)
        ensures
            element == *self,
    {
        *self
    }
}

/// A vector-graphics element.
#[derive(Clone, Copy, Debug, PartialEq, Eq, Structural)]
pub struct SvgElement {}

impl SvgElement {
    /// A graphic without a path.
    pub fn new() -> (element: SvgElement)
        ensures
            element == (SvgElement {  }),
    {
        SvgElement {  }
    }

    /// The element itself: the path is not kept.
    pub fn path(&self, _path: String) -> (element: SvgElement)
        ensures
            element == *self,
    {
        *self
    }
}

/// A text element.
#[derive(Clone, Copy, Debug, PartialEq, Eq, Structural)]
pub struct TextElement {}

impl TextElement {
    /// A text without content.
    pub fn new() -> (element: TextElement)
        ensures
            element == (TextElement {  }),
    {
        TextElement {  }
    }

    /// The element itself: the content is not kept.
    pub fn text(&self, _content: String) -> (element: TextElement)
        ensures
            element == *self,
    {
        *self
    }
}

/// A list element.
#[derive(Clone, Copy, Debug, PartialEq, Eq, Structural)]
pub struct ListElement {}

impl ListElement {
    /// An empty list.
    pub fn new() -> (element: ListElement)
        ensures
            element == (ListElement {  }),
    {
        ListElement {  }
    }
}

/// A list element whose items have one size.
#[derive(Clone, Copy, Debug, PartialEq, Eq, Structural)]
pub struct UniformListElement {}

impl UniformListElement {
    /// An empty list.
    pub fn new() -> (element: UniformListElement)
        ensures
            element == (UniformListElement {  }),
    {
        UniformListElement {  }
    }

    /// The element itself: the number of items is not kept.
    pub fn items(&self, _count: u32) -> (element: UniformListElement)
        ensures
            element == *self,
    {
        *self
    }
}

/// Names what can hold the keyboard focus.
#[derive(Clone, Copy, Debug, PartialEq, Eq, Structural)]
pub struct FocusHandle {
    pub id: u32,
}

/// Names a piece of state of the application.
#[derive(Clone, Copy, Debug, PartialEq, Eq, Structural)]
pub struct Model {
    pub id: u32,
}

/// Names a view of the application.
#[derive(Clone, Copy, Debug, PartialEq, Eq, Structural)]
pub struct View {
    pub id: u32,
}

/// What a subscription to a model hands back.
#[derive(Clone, Copy, Debug, PartialEq, Eq, Structural)]
pub struct Subscription {}

/// Work that runs in the background.
#[derive(Clone, Copy, Debug, PartialEq, Eq, Structural)]
pub struct Task {}

/// The modifier keys held during an input event.
#[derive(Clone, Copy, Debug, PartialEq, Eq, Structural)]
pub struct KeyModifiers {
    pub shift: bool,
    pub control: bool,
    pub alt: bool,
    pub meta: bool,
}

/// A key press or release.
pub struct KeyboardEvent {
    pub key: String,
    pub modifiers: KeyModifiers,
}

/// The context of the running application.
#[derive(Clone, Copy, Debug, PartialEq, Eq, Structural)]
pub struct NapiAppContext {}

/// The context of a window that is being drawn.
#[derive(Clone, Copy, Debug, PartialEq, Eq, Structural)]
pub struct NapiVisualContext {}

/// Identifier of an entity.
#[derive(Clone, Copy, Debug, PartialEq, Eq, Structural)]
pub struct EntityId {
    pub id: i64,
}

/// Names an entity.
#[derive(Clone, Copy, Debug, PartialEq, Eq, Structural)]
pub struct Entity {
    pub id: i64,
}

} // verus!
