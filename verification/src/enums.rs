//! The catalogs of the UI toolkit: layout, styling, input and window options.

use vstd::prelude::*;

verus! {

/// Whether an element is shown.
#[derive(Clone, Copy, Debug, PartialEq, Eq, Structural)]
pub enum Visibility {
    Visible,
    Hidden,
}

/// How the lines of a flex container are distributed along the cross axis.
#[derive(Clone, Copy, Debug, PartialEq, Eq, Structural)]
pub enum AlignContent {
    Start,
    End,
    Center,
    Stretch,
    SpaceBetween,
    SpaceAround,
}

/// How the children of a flex container are aligned along the cross axis.
#[derive(Clone, Copy, Debug, PartialEq, Eq, Structural)]
pub enum AlignItems {
    Start,
    End,
    Center,
    Baseline,
    Stretch,
}

/// The main axis of a flex container and the direction along it.
#[derive(Clone, Copy, Debug, PartialEq, Eq, Structural)]
pub enum FlexDirection {
    Row,
    Column,
    RowReverse,
    ColumnReverse,
}

/// Whether an element takes part in layout.
#[derive(Clone, Copy, Debug, PartialEq, Eq, Structural)]
pub enum Display {
    Flex,
    Nothing,
}

/// What happens to content that does not fit its element.
#[derive(Clone, Copy, Debug, PartialEq, Eq, Structural)]
pub enum Overflow {
    Visible,
    Hidden,
    Scroll,
}

/// Whether an element is placed in the flow or relative to its parent's box.
#[derive(Clone, Copy, Debug, PartialEq, Eq, Structural)]
pub enum Position {
    Relative,
    Absolute,
}

/// Horizontal alignment of text.
#[derive(Clone, Copy, Debug, PartialEq, Eq, Structural)]
pub enum TextAlign {
    Left,
    Center,
    Right,
    Justify,
}

/// How a border is drawn.
#[derive(Clone, Copy, Debug, PartialEq, Eq, Structural)]
pub enum BorderStyle {
    Solid,
    Dashed,
    Dotted,
    Nothing,
}

/// Shape of the mouse cursor.
#[derive(Clone, Copy, Debug, PartialEq, Eq, Structural)]
pub enum CursorStyle {
    Default,
    Pointer,
    Text,
    Wait,
    Help,
    NotAllowed,
    ContextSMenu,
    Cell,
    Crosshair,
    VerticalText,
    Alias,
    Copy,
    Move,
    NoDrop,
    Grab,
    Grabbing,
    AllScroll,
    ColResize,
    RowResize,
    NResize,
    EResize,
    SResize,
    WResize,
    NeResize,
    NwResize,
    SeResize,
    SwResize,
    EwResize,
    NsResize,
    NeswResize,
    NwseResize,
}

/// Slant of a font.
#[derive(Clone, Copy, Debug, PartialEq, Eq, Structural)]
pub enum FontStyle {
    Normal,
    Italic,
    Oblique,
}

/// Where a list anchors its items.
#[derive(Clone, Copy, Debug, PartialEq, Eq, Structural)]
pub enum ListAlignment {
    Top,
    Center,
    Bottom,
}

/// Role of a window on the desktop.
#[derive(Clone, Copy, Debug, PartialEq, Eq, Structural)]
pub enum WindowKind {
    Normal,
    PopUp,
    ToolTip,
}

/// One of the two axes of the plane.
#[derive(Clone, Copy, Debug, PartialEq, Eq, Structural)]
pub enum Axis {
    Horizontal,
    Vertical,
}

/// How much room a layout pass may use.
#[derive(Clone, Copy, Debug, PartialEq, Eq, Structural)]
pub enum AvailableSpace {
    Definite,
    MinContent,
    MaxContent,
}

/// Space in which colors are interpolated.
#[derive(Clone, Copy, Debug, PartialEq, Eq, Structural)]
pub enum ColorSpace {
    Srgb,
    Oklab,
}

/// Whether a flex container breaks its children into lines.
#[derive(Clone, Copy, Debug, PartialEq, Eq, Structural)]
pub enum FlexWrap {
    NoWrap,
    Wrap,
    WrapReverse,
}

/// One of the four corners of a box.
#[derive(Clone, Copy, Debug, PartialEq, Eq, Structural)]
pub enum Corner {
    TopLeft,
    TopRight,
    BottomRight,
    BottomLeft,
}

/// A button of the mouse.
#[derive(Clone, Copy, Debug, PartialEq, Eq, Structural)]
pub enum MouseButton {
    Left,
    Right,
    Middle,
    Back,
    Forward,
    Other,
}

/// Direction of a navigation gesture or key.
#[derive(Clone, Copy, Debug, PartialEq, Eq, Structural)]
pub enum NavigationDirection {
    Next,
    Prev,
    Up,
    Down,
    Left,
    Right,
}

/// How an image is fitted into its box.
#[derive(Clone, Copy, Debug, PartialEq, Eq, Structural)]
pub enum ObjectFit {
    Fill,
    Contain,
    Cover,
    Nothing,
    ScaleDown,
}

/// Phase of a touch gesture.
#[derive(Clone, Copy, Debug, PartialEq, Eq, Structural)]
pub enum TouchPhase {
    Started,
    Moved,
    Ended,
    Canceled,
}

/// How white space in text is treated.
#[derive(Clone, Copy, Debug, PartialEq, Eq, Structural)]
pub enum WhiteSpace {
    Normal,
    Nowrap,
    Pre,
    PreLine,
    PreWrap,
}

/// How a list decides its own size.
#[derive(Clone, Copy, Debug, PartialEq, Eq, Structural)]
pub enum ListSizingBehavior {
    Fixed,
    Auto,
}

/// Layout of the pixels of an image.
#[derive(Clone, Copy, Debug, PartialEq, Eq, Structural)]
pub enum ImageFormat {
    Rgba8,
    Bgra8,
    R16F,
}

/// Kind of an input event of the platform.
#[derive(Clone, Copy, Debug, PartialEq, Eq, Structural)]
pub enum PlatformInput {
    KeyDown,
    KeyUp,
    MouseDown,
    MouseUp,
    MouseMove,
    MouseExited,
    ScrollWheel,
}

/// Where an image comes from.
#[derive(Clone, Copy, Debug, PartialEq, Eq, Structural)]
pub enum ImageSource {
    Uri,
    File,
    Data,
}

/// Phase of a drag of files over a window.
#[derive(Clone, Copy, Debug, PartialEq, Eq, Structural)]
pub enum FileDropEvent {
    Entered,
    Hovered,
    Exited,
    Dropped,
}

/// What happens to text that does not fit its line.
#[derive(Clone, Copy, Debug, PartialEq, Eq, Structural)]
pub enum TextOverflow {
    Clip,
    Ellipsis,
}

/// What an anchored element does when it does not fit.
#[derive(Clone, Copy, Debug, PartialEq, Eq, Structural)]
pub enum AnchoredFitMode {
    Overflow,
    Snap,
}

/// What the position of an anchored element is relative to.
#[derive(Clone, Copy, Debug, PartialEq, Eq, Structural)]
pub enum AnchoredPositionMode {
    Absolute,
    ToWindow,
}

/// Edge or corner by which a window is resized.
#[derive(Clone, Copy, Debug, PartialEq, Eq, Structural)]
pub enum ResizeEdge {
    Top,
    Right,
    Bottom,
    Left,
    TopRight,
    TopLeft,
    BottomRight,
    BottomLeft,
}

/// Severity of a prompt.
#[derive(Clone, Copy, Debug, PartialEq, Eq, Structural)]
pub enum PromptLevel {
    Info,
    Warning,
    Critical,
}

/// Phase in which an event travels through the element tree.
#[derive(Clone, Copy, Debug, PartialEq, Eq, Structural)]
pub enum DispatchPhase {
    Capture,
    Bubble,
}

/// Who draws the decorations of a window.
#[derive(Clone, Copy, Debug, PartialEq, Eq, Structural)]
pub enum Decorations {
    Server,
    Client,
}

/// Appearance that the desktop asks of a window.
#[derive(Clone, Copy, Debug, PartialEq, Eq, Structural)]
pub enum WindowAppearance {
    Light,
    Dark,
    VibrantLight,
    VibrantDark,
}

/// How the background of a window is composed.
#[derive(Clone, Copy, Debug, PartialEq, Eq, Structural)]
pub enum WindowBackgroundAppearance {
    Opaque,
    Transparent,
    Blurred,
}

/// Which decorations a window asks for.
#[derive(Clone, Copy, Debug, PartialEq, Eq, Structural)]
pub enum WindowDecorations {
    Full,
    Nothing,
}

/// Side of the title bar that holds the window controls.
#[derive(Clone, Copy, Debug, PartialEq, Eq, Structural)]
pub enum WindowControlArea {
    TopLeft,
    TopRight,
}

/// Rule that decides the inside of a path.
#[derive(Clone, Copy, Debug, PartialEq, Eq, Structural)]
pub enum FillRule {
    NonZero,
    EvenOdd,
}

/// Whether a hitbox lets the mouse through.
#[derive(Clone, Copy, Debug, PartialEq, Eq, Structural)]
pub enum HitboxBehavior {
    PassThrough,
    Block,
}

/// Whether a list is bounded horizontally.
#[derive(Clone, Copy, Debug, PartialEq, Eq, Structural)]
pub enum ListHorizontalSizingBehavior {
    Unconstrained,
    Constrained,
}

/// Whether the items of a list have one size.
#[derive(Clone, Copy, Debug, PartialEq, Eq, Structural)]
pub enum ListMeasuringBehavior {
    FixedItemSize,
    VariableItemSize,
}

/// One of the menus that the system provides.
#[derive(Clone, Copy, Debug, PartialEq, Eq, Structural)]
pub enum SystemMenuType {
    App,
    File,
    Edit,
    View,
    Window,
    Help,
}

} // verus!
