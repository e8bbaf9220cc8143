//! The data shared between the control side and the event-loop worker.

use vstd::prelude::*;
use std::collections::HashMap;
use tiny_skia::Pixmap;
use crate::renderer::pixel::{OPAQUE_BLACK, TRANSPARENT_BLACK};
use crate::renderer::window_manager::surface::{
    pixmap_data,
    pixmap_height,
    pixmap_size_fits,
    pixmap_width,
};

verus! {

/// What a logical window is: its size, its pixels in row-major order, and its metadata.
pub struct WindowView {
    pub width: u32,
    pub height: u32,
    pub pixels: Seq<u32>,
    pub needs_redraw: bool,
    pub title: Seq<char>,
    pub x: Option<i32>,
    pub y: Option<i32>,
    pub always_on_top: bool,
    pub transparent: bool,
    pub decorations: bool,
    pub winit_id: Option<u64>,
}

impl WindowView {
    /// The buffer holds one value per pixel, and the pixel count fits in 32 bits.
    pub open spec fn wf(self) -> bool {
        &&& self.width * self.height <= u32::MAX
        &&& self.pixels.len() == self.width * self.height
    }

    /// Whether `(x, y)` lies inside the window.
    pub open spec fn in_bounds(self, x: u32, y: u32) -> bool {
        x < self.width && y < self.height
    }

    /// Position of `(x, y)` in the buffer.
    pub open spec fn index_of(self, x: u32, y: u32) -> int {
        y * self.width + x
    }

    /// The color every pixel of a new window has.
    pub open spec fn initial_color(transparent: bool) -> u32 {
        if transparent {
            TRANSPARENT_BLACK
        } else {
            OPAQUE_BLACK
        }
    }

    /// A window as it is when first registered: uniformly filled, dirty, not yet realized.
    pub open spec fn created(
        width: u32,
        height: u32,
        title: Seq<char>,
        x: Option<i32>,
        y: Option<i32>,
        always_on_top: bool,
        transparent: bool,
        decorations: bool,
    ) -> WindowView {
        WindowView {
            width,
            height,
            pixels: Seq::new((width * height) as nat, |i: int| Self::initial_color(transparent)),
            needs_redraw: true,
            title,
            x,
            y,
            always_on_top,
            transparent,
            decorations,
            winit_id: None,
        }
    }

    /// The window after one pixel was written; unchanged when `(x, y)` is outside it.
    pub open spec fn with_pixel(self, x: u32, y: u32, color: u32) -> WindowView {
        if self.in_bounds(x, y) {
            WindowView {
                pixels: self.pixels.update(self.index_of(x, y), color),
                needs_redraw: true,
                ..self
            }
        } else {
            self
        }
    }

    /// The window after every pixel was set to `color`.
    pub open spec fn filled(self, color: u32) -> WindowView {
        WindowView {
            pixels: Seq::new(self.pixels.len(), |i: int| color),
            needs_redraw: true,
            ..self
        }
    }

    /// The window with its dirty flag set to `dirty`.
    pub open spec fn with_redraw(self, dirty: bool) -> WindowView {
        WindowView { needs_redraw: dirty, ..self }
    }

    /// The window moved to `(x, y)`.
    pub open spec fn with_position(self, x: i32, y: i32) -> WindowView {
        WindowView { x: Some(x), y: Some(y), ..self }
    }

    /// The window with its always-on-top flag set.
    pub open spec fn with_always_on_top(self, always_on_top: bool) -> WindowView {
        WindowView { always_on_top, ..self }
    }

    /// The window renamed.
    pub open spec fn with_title(self, title: Seq<char>) -> WindowView {
        WindowView { title, ..self }
    }

    /// The window bound to the native window `native_id`.
    pub open spec fn with_winit_id(self, native_id: u64) -> WindowView {
        WindowView { winit_id: Some(native_id), ..self }
    }
}

/// State of one logical window.
#[derive(Debug)]
pub struct WindowState {
    pub width: u32,
    pub height: u32,
    pub pixel_buffer: Vec<u32>,
    pub needs_redraw: bool,
    pub title: String,
    pub x: Option<i32>,
    pub y: Option<i32>,
    pub always_on_top: bool,
    pub transparent: bool,
    pub decorations: bool,
    pub winit_id: Option<u64>,
}

impl View for WindowState {
    type V = WindowView;

    open spec fn view(&self) -> WindowView {
        WindowView {
            width: self.width,
            height: self.height,
            pixels: self.pixel_buffer@,
            needs_redraw: self.needs_redraw,
            title: self.title@,
            x: self.x,
            y: self.y,
            always_on_top: self.always_on_top,
            transparent: self.transparent,
            decorations: self.decorations,
            winit_id: self.winit_id,
        }
    }
}

impl WindowState {
    /// The buffer holds exactly `width * height` pixels.
    pub open spec fn wf(&self) -> bool {
        self@.wf()
    }

    /// Registers a window of the given size, or `None` when its pixel count does not fit in
    /// 32 bits.
    pub fn new(
        width: u32,
        height: u32,
        title: String,
        x: Option<i32>,
        y: Option<i32>,
        always_on_top: bool,
        transparent: bool,
        decorations: bool,
    ) -> (window: Option<WindowState>)
        ensures
            window is Some <==> width * height <= u32::MAX,
            window matches Some(w) ==> w.wf() && w@ == WindowView::created(
                width,
                height,
                title@,
                x,
                y,
                always_on_top,
                transparent,
                decorations,
            ),
    {
        assert(width * height <= 0xFFFF_FFFF * 0xFFFF_FFFF) by (nonlinear_arith)
            requires
                width <= 0xFFFF_FFFF,
                height <= 0xFFFF_FFFF,
        ;
        let count: u64 = (width as u64) * (height as u64);
        if count > u32::MAX as u64 {
            assert(width * height > u32::MAX) by (nonlinear_arith)
                requires
                    count == width * height,
                    count > u32::MAX,
            ;
            return None;
        }
        let fill: u32 = if transparent {
            TRANSPARENT_BLACK
        } else {
            OPAQUE_BLACK
        };
        let pixel_buffer: Vec<u32> = vec![fill; count as usize];
        assert(pixel_buffer@ =~= Seq::new(
            (width * height) as nat,
            |i: int| WindowView::initial_color(transparent),
        ));
        Some(
            WindowState {
                width,
                height,
                pixel_buffer,
                needs_redraw: true,
                title,
                x,
                y,
                always_on_top,
                transparent,
                decorations,
                winit_id: None,
            },
        )
    }

    /// The color at `(x, y)`, or `None` outside the window.
    pub fn pixel(&self, x: u32, y: u32) -> (color: Option<u32>)
        requires
            self.wf(),
        ensures
            color == (if self@.in_bounds(x, y) {
                Some(self@.pixels[self@.index_of(x, y)])
            } else {
                None
            }),
    {
        if x < self.width && y < self.height {
            assert(y * self.width + x < self.width * self.height) by (nonlinear_arith)
                requires
                    x < self.width,
                    y < self.height,
            ;
            let index: usize = (y * self.width + x) as usize;
            Some(self.pixel_buffer[index])
        } else {
            None
        }
    }

    /// Writes `color` at `(x, y)` and marks the window dirty; does nothing outside the window.
    pub fn set_pixel(&mut self, x: u32, y: u32, color: u32)
        requires
            old(self).wf(),
        ensures
            final(self).wf(),
            final(self)@ == old(self)@.with_pixel(x, y, color),
    {
        if x < self.width && y < self.height {
            assert(y * self.width + x < self.width * self.height) by (nonlinear_arith)
                requires
                    x < self.width,
                    y < self.height,
            ;
            let index: usize = (y * self.width + x) as usize;
            self.pixel_buffer.set(index, color);
            self.needs_redraw = true;
        }
    }

    /// Sets every pixel to `color` and marks the window dirty.
    pub fn fill(&mut self, color: u32)
        requires
            old(self).wf(),
        ensures
            final(self).wf(),
            final(self)@ == old(self)@.filled(color),
    {
        let n: usize = self.pixel_buffer.len();
        let mut i: usize = 0;
        while i < n
            invariant
                i <= n,
                n == self.pixel_buffer@.len(),
                self.pixel_buffer@.len() == old(self).pixel_buffer@.len(),
                forall|j: int| 0 <= j < i ==> self.pixel_buffer@[j] == color,
                self.width == old(self).width,
                self.height == old(self).height,
                self.needs_redraw == old(self).needs_redraw,
                self.title == old(self).title,
                self.x == old(self).x,
                self.y == old(self).y,
                self.always_on_top == old(self).always_on_top,
                self.transparent == old(self).transparent,
                self.decorations == old(self).decorations,
                self.winit_id == old(self).winit_id,
            decreases n - i,
        {
            self.pixel_buffer.set(i, color);
            i += 1;
        }
        self.needs_redraw = true;
        assert(self.pixel_buffer@ =~= Seq::new(old(self).pixel_buffer@.len(), |i: int| color));
    }
}

/// What a command says, with its title as a sequence of characters.
#[allow(inconsistent_fields)]
pub enum CommandView {
    CreateWindow {
        id: u64,
        width: u32,
        height: u32,
        title: Seq<char>,
        x: Option<i32>,
        y: Option<i32>,
        always_on_top: bool,
        transparent: bool,
        decorations: bool,
    },
    Present { window_id: u64 },
    SetPosition { window_id: u64, x: i32, y: i32 },
    SetAlwaysOnTop { window_id: u64, always_on_top: bool },
    SetTitle { window_id: u64, title: Seq<char> },
    SetIgnoreInput { window_id: u64, ignore: bool },
    CloseWindow { window_id: u64 },
}

/// Commands that the control side queues for the event-loop worker.
#[allow(inconsistent_fields)]
#[derive(Debug, PartialEq, Eq)]
pub enum WindowCommand {
    CreateWindow {
        id: u64,
        width: u32,
        height: u32,
        title: String,
        x: Option<i32>,
        y: Option<i32>,
        always_on_top: bool,
        transparent: bool,
        decorations: bool,
    },
    Present { window_id: u64 },
    SetPosition { window_id: u64, x: i32, y: i32 },
    SetAlwaysOnTop { window_id: u64, always_on_top: bool },
    SetTitle { window_id: u64, title: String },
    SetIgnoreInput { window_id: u64, ignore: bool },
    CloseWindow { window_id: u64 },
}

impl View for WindowCommand {
    type V = CommandView;

    open spec fn view(&self) -> CommandView {
        match *self {
            WindowCommand::CreateWindow {
                id,
                width,
                height,
                title,
                x,
                y,
                always_on_top,
                transparent,
                decorations,
            } => CommandView::CreateWindow {
                id,
                width,
                height,
                title: title@,
                x,
                y,
                always_on_top,
                transparent,
                decorations,
            },
            WindowCommand::Present { window_id } => CommandView::Present { window_id },
            WindowCommand::SetPosition { window_id, x, y } => CommandView::SetPosition {
                window_id,
                x,
                y,
            },
            WindowCommand::SetAlwaysOnTop { window_id, always_on_top } => {
                CommandView::SetAlwaysOnTop { window_id, always_on_top }
            },
            WindowCommand::SetTitle { window_id, title } => CommandView::SetTitle {
                window_id,
                title: title@,
            },
            WindowCommand::SetIgnoreInput { window_id, ignore } => CommandView::SetIgnoreInput {
                window_id,
                ignore,
            },
            WindowCommand::CloseWindow { window_id } => CommandView::CloseWindow { window_id },
        }
    }
}

/// The views of the windows of a table, under their ids.
pub open spec fn window_views(windows: Map<u64, WindowState>) -> Map<u64, WindowView> {
    Map::new(|id: u64| windows.contains_key(id), |id: u64| windows[id]@)
}

/// The views of a queue of commands, in order.
pub open spec fn command_views(commands: Seq<WindowCommand>) -> Seq<CommandView> {
    Seq::new(commands.len(), |i: int| commands[i]@)
}

/// What the shared state holds: the logical windows, the queued commands, the exit flag.
pub struct StateView {
    pub windows: Map<u64, WindowView>,
    pub commands: Seq<CommandView>,
    pub should_exit: bool,
}

impl StateView {
    /// The table of windows is finite and every window in it is well formed.
    pub open spec fn wf(self) -> bool {
        &&& self.windows.dom().finite()
        &&& forall|id: u64| #[trigger] self.windows.contains_key(id) ==> self.windows[id].wf()
    }

    /// The state with `command` appended to the queue.
    pub open spec fn enqueue(self, command: CommandView) -> StateView {
        StateView { commands: self.commands.push(command), ..self }
    }

    /// The state with window `id` replaced by `window`, when `id` is known; unchanged otherwise.
    pub open spec fn update_window(self, id: u64, window: WindowView) -> StateView {
        if self.windows.contains_key(id) {
            StateView { windows: self.windows.insert(id, window), ..self }
        } else {
            self
        }
    }
}

/// State shared by the control side and the event-loop worker.
pub struct WindowManagerState {
    pub windows: HashMap<u64, WindowState>,
    pub pending_commands: Vec<WindowCommand>,
    pub should_exit: bool,
}

impl View for WindowManagerState {
    type V = StateView;

    open spec fn view(&self) -> StateView {
        StateView {
            windows: window_views(self.windows@),
            commands: command_views(self.pending_commands@),
            should_exit: self.should_exit,
        }
    }
}

impl WindowManagerState {
    /// Every window of the table is well formed.
    pub open spec fn wf(&self) -> bool {
        self@.wf()
    }
}

/// What the worker knows of one native window: its native identifier, the logical window it
/// presents, and the size and bytes of its surface.
pub struct ManagedView {
    pub window: u64,
    pub state_id: u64,
    pub width: u32,
    pub height: u32,
    pub surface: Seq<u8>,
}

impl ManagedView {
    /// The surface has a size that can be allocated and holds four bytes per pixel.
    pub open spec fn wf(self) -> bool {
        &&& pixmap_size_fits(self.width, self.height)
        &&& self.surface.len() == self.width * self.height * 4
    }
}

/// A native window as the event-loop worker keeps it: the identifier that the platform gave
/// it, its presentation surface, and the logical window it belongs to.
pub struct ManagedWindow {
    pub window: u64,
    pub pixmap: Pixmap,
    pub state_id: u64,
}

impl View for ManagedWindow {
    type V = ManagedView;

    open spec fn view(&self) -> ManagedView {
        ManagedView {
            window: self.window,
            state_id: self.state_id,
            width: pixmap_width(self.pixmap),
            height: pixmap_height(self.pixmap),
            surface: pixmap_data(self.pixmap),
        }
    }
}

impl ManagedWindow {
    /// The surface is as large as its size says.
    pub open spec fn wf(&self) -> bool {
        self@.wf()
    }
}

/// The views of the native windows of a table, in order.
pub open spec fn managed_views(windows: Seq<ManagedWindow>) -> Seq<ManagedView> {
    Seq::new(windows.len(), |i: int| windows[i]@)
}

/// What the platform's event loop reports to the worker. `window` is the identifier that the
/// platform gave the native window.
#[derive(Clone, Copy, Debug, PartialEq, Eq, Structural)]
pub enum WorkerEvent {
    /// The user asked to close a window.
    CloseRequested { window: u64 },
    /// The platform asks for the content of a window.
    RedrawRequested { window: u64 },
    /// A window changed its size.
    Resized { window: u64 },
    /// The loop has handled its events and is about to wait.
    AboutToWait,
    /// The native window that the worker asked for last exists now.
    WindowCreated { window: u64 },
    /// Any other event.
    Other,
}

/// What an action says, with its title as a sequence of characters.
#[allow(inconsistent_fields)]
pub enum ActionView {
    CreateWindow {
        id: u64,
        width: u32,
        height: u32,
        title: Seq<char>,
        position: Option<(i32, i32)>,
        always_on_top: bool,
        transparent: bool,
        decorations: bool,
    },
    RequestRedraw { window: u64 },
    SetPosition { window: u64, x: i32, y: i32 },
    SetTitle { window: u64, title: Seq<char> },
    SetCursorHittest { window: u64, hittest: bool },
    Present { window: u64, width: u32, height: u32, transparent: bool },
    DestroyWindow { window: u64 },
    SurfaceFailed { id: u64, window: u64 },
    ExitEventLoop,
    ExitProcess,
}

/// What the worker asks the platform to do. `window` is the identifier that the platform gave
/// the native window; `id` is the identifier of a logical window.
#[allow(inconsistent_fields)]
#[derive(Debug, PartialEq, Eq)]
pub enum WindowAction {
    /// Build a visible native window, place it at `position` if there is one, and report it
    /// with `WorkerEvent::WindowCreated`.
    CreateWindow {
        id: u64,
        width: u32,
        height: u32,
        title: String,
        position: Option<(i32, i32)>,
        always_on_top: bool,
        transparent: bool,
        decorations: bool,
    },
    /// Ask the platform for a redraw event for the window.
    RequestRedraw { window: u64 },
    /// Move the window.
    SetPosition { window: u64, x: i32, y: i32 },
    /// Rename the window.
    SetTitle { window: u64, title: String },
    /// Let the window take mouse input (`true`) or pass it through (`false`).
    SetCursorHittest { window: u64, hittest: bool },
    /// Show the surface of the window, which holds `width * height` pixels as RGBA bytes.
    Present { window: u64, width: u32, height: u32, transparent: bool },
    /// Drop the native window.
    DestroyWindow { window: u64 },
    /// No surface could be allocated for the native window made for logical window `id`.
    SurfaceFailed { id: u64, window: u64 },
    /// Leave the event loop.
    ExitEventLoop,
    /// End the process.
    ExitProcess,
}

impl View for WindowAction {
    type V = ActionView;

    open spec fn view(&self) -> ActionView {
        match *self {
            WindowAction::CreateWindow {
                id,
                width,
                height,
                title,
                position,
                always_on_top,
                transparent,
                decorations,
            } => ActionView::CreateWindow {
                id,
                width,
                height,
                title: title@,
                position,
                always_on_top,
                transparent,
                decorations,
            },
            WindowAction::RequestRedraw { window } => ActionView::RequestRedraw { window },
            WindowAction::SetPosition { window, x, y } => ActionView::SetPosition { window, x, y },
            WindowAction::SetTitle { window, title } => ActionView::SetTitle {
                window,
                title: title@,
            },
            WindowAction::SetCursorHittest { window, hittest } => ActionView::SetCursorHittest {
                window,
                hittest,
            },
            WindowAction::Present { window, width, height, transparent } => ActionView::Present {
                window,
                width,
                height,
                transparent,
            },
            WindowAction::DestroyWindow { window } => ActionView::DestroyWindow { window },
            WindowAction::SurfaceFailed { id, window } => ActionView::SurfaceFailed { id, window },
            WindowAction::ExitEventLoop => ActionView::ExitEventLoop,
            WindowAction::ExitProcess => ActionView::ExitProcess,
        }
    }
}

/// The views of a list of actions, in order.
pub open spec fn action_views(actions: Seq<WindowAction>) -> Seq<ActionView> {
    Seq::new(actions.len(), |i: int| actions[i]@)
}

} // verus!
