//! The control side: every request is one step on the shared state.

use vstd::prelude::*;
use std::collections::HashMap;
use crate::renderer::pixel::{pack_argb, pack_rgb, packed_argb, packed_rgb, OPAQUE_ALPHA};
use crate::renderer::window_manager::laws::lemma_create_registers;
use crate::renderer::window_manager::types::{
    CommandView,
    StateView,
    WindowCommand,
    WindowManagerState,
    WindowState,
    WindowView,
};

verus! {

broadcast use vstd::std_specs::hash::group_hash_axioms;

/// Why a request to the manager was refused.
#[derive(Clone, Copy, Debug, PartialEq, Eq, Structural)]
pub enum WindowManagerError {
    /// The worker was started before.
    AlreadyStarted,
    /// The window would have more pixels than 32 bits can count.
    SizeOverflow,
    /// Every window identifier has been issued.
    IdsExhausted,
}

/// What the manager holds: the shared state, the next identifier, and whether the worker runs.
pub struct ManagerView {
    pub state: StateView,
    pub next_window_id: u64,
    pub started: bool,
}

impl ManagerView {
    /// Every window is well formed and was issued by this manager: its identifier lies below
    /// the next one, and identifiers start at 1.
    pub open spec fn wf(self) -> bool {
        &&& self.state.wf()
        &&& self.next_window_id >= 1
        &&& forall|id: u64| #[trigger]
            self.state.windows.contains_key(id) ==> 1 <= id < self.next_window_id
    }

    /// A manager without windows, whose first window will be number 1.
    pub open spec fn initial() -> ManagerView {
        ManagerView {
            state: StateView { windows: Map::empty(), commands: Seq::empty(), should_exit: false },
            next_window_id: 1,
            started: false,
        }
    }

    /// Whether a window of this size can be created now, and if not, why.
    pub open spec fn create_refusal(self, width: u32, height: u32) -> Option<WindowManagerError> {
        if width * height > u32::MAX {
            Some(WindowManagerError::SizeOverflow)
        } else if self.next_window_id == u64::MAX {
            Some(WindowManagerError::IdsExhausted)
        } else {
            None
        }
    }

    /// The manager after a window was registered under the next identifier and its creation
    /// queued.
    pub open spec fn created(
        self,
        width: u32,
        height: u32,
        title: Seq<char>,
        x: Option<i32>,
        y: Option<i32>,
        always_on_top: bool,
        transparent: bool,
        decorations: bool,
    ) -> ManagerView {
        let id = self.next_window_id;
        ManagerView {
            state: StateView {
                windows: self.state.windows.insert(
                    id,
                    WindowView::created(
                        width,
                        height,
                        title,
                        x,
                        y,
                        always_on_top,
                        transparent,
                        decorations,
                    ),
                ),
                commands: self.state.commands.push(
                    CommandView::CreateWindow {
                        id,
                        width,
                        height,
                        title,
                        x,
                        y,
                        always_on_top,
                        transparent,
                        decorations,
                    },
                ),
                should_exit: self.state.should_exit,
            },
            next_window_id: (id + 1) as u64,
            started: self.started,
        }
    }

    /// The manager with the shared state replaced.
    pub open spec fn with_state(self, state: StateView) -> ManagerView {
        ManagerView { state, ..self }
    }

    /// The manager after `color` was written at `(x, y)` of window `id`.
    pub open spec fn painted(self, id: u64, x: u32, y: u32, color: u32) -> ManagerView {
        if self.state.windows.contains_key(id) {
            self.with_state(
                self.state.update_window(id, self.state.windows[id].with_pixel(x, y, color)),
            )
        } else {
            self
        }
    }

    /// The manager after window `id` was filled with `color`.
    pub open spec fn cleared(self, id: u64, color: u32) -> ManagerView {
        if self.state.windows.contains_key(id) {
            self.with_state(self.state.update_window(id, self.state.windows[id].filled(color)))
        } else {
            self
        }
    }

    /// The manager after a redraw of window `id` was asked for.
    pub open spec fn presented(self, id: u64) -> ManagerView {
        let state = if self.state.windows.contains_key(id) {
            self.state.update_window(id, self.state.windows[id].with_redraw(true))
        } else {
            self.state
        };
        self.with_state(state.enqueue(CommandView::Present { window_id: id }))
    }

    /// The manager after window `id` was asked to move to `(x, y)`.
    pub open spec fn moved(self, id: u64, x: i32, y: i32) -> ManagerView {
        let state = if self.state.windows.contains_key(id) {
            self.state.update_window(id, self.state.windows[id].with_position(x, y))
        } else {
            self.state
        };
        self.with_state(state.enqueue(CommandView::SetPosition { window_id: id, x, y }))
    }

    /// The manager after window `id` was asked to stay on top, or not to.
    pub open spec fn pinned(self, id: u64, always_on_top: bool) -> ManagerView {
        let state = if self.state.windows.contains_key(id) {
            self.state.update_window(id, self.state.windows[id].with_always_on_top(always_on_top))
        } else {
            self.state
        };
        self.with_state(
            state.enqueue(CommandView::SetAlwaysOnTop { window_id: id, always_on_top }),
        )
    }

    /// The manager after window `id` was asked to take a new title.
    pub open spec fn retitled(self, id: u64, title: Seq<char>) -> ManagerView {
        let state = if self.state.windows.contains_key(id) {
            self.state.update_window(id, self.state.windows[id].with_title(title))
        } else {
            self.state
        };
        self.with_state(state.enqueue(CommandView::SetTitle { window_id: id, title }))
    }

    /// The manager after `command` was queued and nothing else changed.
    pub open spec fn queued(self, command: CommandView) -> ManagerView {
        self.with_state(self.state.enqueue(command))
    }
}

/// Window manager that handles several windows without blocking its caller.
pub struct WindowManager {
    pub state: WindowManagerState,
    pub next_window_id: u64,
    pub started: bool,
}

impl View for WindowManager {
    type V = ManagerView;

    open spec fn view(&self) -> ManagerView {
        ManagerView {
            state: self.state@,
            next_window_id: self.next_window_id,
            started: self.started,
        }
    }
}

impl WindowManager {
    /// The manager is well formed when its view is.
    pub open spec fn wf(&self) -> bool {
        self@.wf()
    }

    /// Creates a manager without windows.
    pub fn new() -> (manager: WindowManager)
        ensures
            manager.wf(),
            manager@ == ManagerView::initial(),
    {
        let manager = WindowManager {
            state: WindowManagerState {
                windows: HashMap::new(),
                pending_commands: Vec::new(),
                should_exit: false,
            },
            next_window_id: 1,
            started: false,
        };
        assert(manager@.state.windows =~= Map::empty());
        assert(manager@.state.commands =~= Seq::empty());
        manager
    }

    /// Records that the event-loop worker is being started; refused the second time.
    pub fn start(&mut self) -> (result: Result<(), WindowManagerError>)
        ensures
            result is Ok <==> !old(self)@.started,
            result matches Err(e) ==> e == WindowManagerError::AlreadyStarted,
            final(self).state == old(self).state,
            final(self).next_window_id == old(self).next_window_id,
            final(self).started,
    {
        if self.started {
            Err(WindowManagerError::AlreadyStarted)
        } else {
            self.started = true;
            Ok(())
        }
    }

    /// Creates an opaque, decorated window that the platform places, and returns its identifier.
    pub fn create_window(&mut self, width: u32, height: u32, title: String) -> (result: Result<
        u64,
        WindowManagerError,
    >)
        requires
            old(self).wf(),
        ensures
            final(self).wf(),
            match result {
                Ok(id) => {
                    &&& old(self)@.create_refusal(width, height) is None
                    &&& id == old(self)@.next_window_id
                    &&& !old(self)@.state.windows.contains_key(id)
                    &&& final(self)@.state.windows.contains_key(id)
                    &&& final(self)@.state.windows.len() == old(self)@.state.windows.len() + 1
                    &&& final(self)@ == old(self)@.created(
                        width,
                        height,
                        title@,
                        None,
                        None,
                        false,
                        false,
                        true,
                    )
                },
                Err(e) => {
                    &&& old(self)@.create_refusal(width, height) == Some(e)
                    &&& final(self)@ == old(self)@
                },
            },
    {
        self.create_window_with_options(width, height, title, None, None, false, false, true)
    }

    /// Creates an opaque, decorated window at `(x, y)`, and returns its identifier.
    pub fn create_window_with_position(
        &mut self,
        width: u32,
        height: u32,
        title: String,
        x: i32,
        y: i32,
    ) -> (result: Result<u64, WindowManagerError>)
        requires
            old(self).wf(),
        ensures
            final(self).wf(),
            match result {
                Ok(id) => {
                    &&& old(self)@.create_refusal(width, height) is None
                    &&& id == old(self)@.next_window_id
                    &&& !old(self)@.state.windows.contains_key(id)
                    &&& final(self)@.state.windows.contains_key(id)
                    &&& final(self)@.state.windows.len() == old(self)@.state.windows.len() + 1
                    &&& final(self)@ == old(self)@.created(
                        width,
                        height,
                        title@,
                        Some(x),
                        Some(y),
                        false,
                        false,
                        true,
                    )
                },
                Err(e) => {
                    &&& old(self)@.create_refusal(width, height) == Some(e)
                    &&& final(self)@ == old(self)@
                },
            },
    {
        self.create_window_with_options(width, height, title, Some(x), Some(y), false, false, true)
    }

    /// Registers a window under the next identifier, queues its creation, and returns the
    /// identifier. The window can be drawn on and queried at once.
    pub fn create_window_with_options(
        &mut self,
        width: u32,
        height: u32,
        title: String,
        x: Option<i32>,
        y: Option<i32>,
        always_on_top: bool,
        transparent: bool,
        decorations: bool,
    ) -> (result: Result<u64, WindowManagerError>)
        requires
            old(self).wf(),
        ensures
            final(self).wf(),
            match result {
                Ok(id) => {
                    &&& old(self)@.create_refusal(width, height) is None
                    &&& id == old(self)@.next_window_id
                    &&& !old(self)@.state.windows.contains_key(id)
                    &&& final(self)@.state.windows.contains_key(id)
                    &&& final(self)@.state.windows.len() == old(self)@.state.windows.len() + 1
                    &&& final(self)@ == old(self)@.created(
                        width,
                        height,
                        title@,
                        x,
                        y,
                        always_on_top,
                        transparent,
                        decorations,
                    )
                },
                Err(e) => {
                    &&& old(self)@.create_refusal(width, height) == Some(e)
                    &&& final(self)@ == old(self)@
                },
            },
    {
        let record = WindowState::new(
            width,
            height,
            title.clone(),
            x,
            y,
            always_on_top,
            transparent,
            decorations,
        );
        match record {
            None => Err(WindowManagerError::SizeOverflow),
            Some(window) => {
                if self.next_window_id == u64::MAX {
                    return Err(WindowManagerError::IdsExhausted);
                }
                let id: u64 = self.next_window_id;
                self.next_window_id = id + 1;
                self.state.windows.insert(id, window);
                self.state.pending_commands.push(
                    WindowCommand::CreateWindow {
                        id,
                        width,
                        height,
                        title,
                        x,
                        y,
                        always_on_top,
                        transparent,
                        decorations,
                    },
                );
                proof {
                    let target = old(self)@.created(
                        width,
                        height,
                        title@,
                        x,
                        y,
                        always_on_top,
                        transparent,
                        decorations,
                    );
                    assert(self@.state.windows =~= target.state.windows);
                    assert(self@.state.commands =~= target.state.commands);
                    lemma_create_registers(
                        old(self)@,
                        width,
                        height,
                        title@,
                        x,
                        y,
                        always_on_top,
                        transparent,
                        decorations,
                    );
                }
                Ok(id)
            },
        }
    }

    /// Writes one packed color into window `window_id`.
    fn paint(&mut self, window_id: u64, x: u32, y: u32, color: u32)
        requires
            old(self).wf(),
        ensures
            final(self).wf(),
            final(self)@ == old(self)@.painted(window_id, x, y, color),
    {
        match self.state.windows.remove(&window_id) {
            Some(window) => {
                let mut window = window;
                assert(old(self)@.state.windows.contains_key(window_id));
                window.set_pixel(x, y, color);
                self.state.windows.insert(window_id, window);
                assert(self@.state.windows =~= old(self)@.painted(
                    window_id,
                    x,
                    y,
                    color,
                ).state.windows);
            },
            None => {
                assert(self.state.windows@ =~= old(self).state.windows@);
            },
        }
    }

    /// Fills window `window_id` with one packed color.
    fn clear_inner(&mut self, window_id: u64, color: u32)
        requires
            old(self).wf(),
        ensures
            final(self).wf(),
            final(self)@ == old(self)@.cleared(window_id, color),
    {
        match self.state.windows.remove(&window_id) {
            Some(window) => {
                let mut window = window;
                assert(old(self)@.state.windows.contains_key(window_id));
                window.fill(color);
                self.state.windows.insert(window_id, window);
                assert(self@.state.windows =~= old(self)@.cleared(window_id, color).state.windows);
            },
            None => {
                assert(self.state.windows@ =~= old(self).state.windows@);
            },
        }
    }

    /// Sets the pixel at `(x, y)` of window `window_id` to the opaque color `(r, g, b)` and
    /// marks the window dirty. Does nothing when the window is unknown or `(x, y)` lies outside
    /// it.
    pub fn set_pixel(&mut self, window_id: u64, x: u32, y: u32, r: u8, g: u8, b: u8)
        requires
            old(self).wf(),
        ensures
            final(self).wf(),
            final(self)@ == old(self)@.painted(window_id, x, y, packed_rgb(r, g, b)),
    {
        let color: u32 = pack_rgb(r, g, b);
        self.paint(window_id, x, y, color)
    }

    /// Sets the pixel at `(x, y)` of window `window_id` to `(r, g, b)` with alpha `a`, where 0 is
    /// fully transparent and 255 fully opaque, and marks the window dirty. Does nothing when the
    /// window is unknown or `(x, y)` lies outside it.
    pub fn set_pixel_rgba(
        &mut self,
        window_id: u64,
        x: u32,
        y: u32,
        r: u8,
        g: u8,
        b: u8,
        a: u8,
    )
        requires
            old(self).wf(),
        ensures
            final(self).wf(),
            final(self)@ == old(self)@.painted(window_id, x, y, packed_argb(a, r, g, b)),
    {
        let color: u32 = pack_argb(a, r, g, b);
        self.paint(window_id, x, y, color)
    }

    /// Fills window `window_id` with `(r, g, b)` and marks it dirty; without `a` the color is
    /// opaque. Does nothing when the window is unknown.
    pub fn clear(&mut self, window_id: u64, r: u8, g: u8, b: u8, a: Option<u8>)
        requires
            old(self).wf(),
        ensures
            final(self).wf(),
            final(self)@ == old(self)@.cleared(
                window_id,
                packed_argb(
                    match a {
                        Some(alpha) => alpha,
                        None => OPAQUE_ALPHA,
                    },
                    r,
                    g,
                    b,
                ),
            ),
    {
        let alpha: u8 = match a {
            Some(alpha) => alpha,
            None => OPAQUE_ALPHA,
        };
        let color: u32 = pack_argb(alpha, r, g, b);
        self.clear_inner(window_id, color)
    }

    /// Fills window `window_id` with opaque black and marks it dirty.
    pub fn clear_black(&mut self, window_id: u64)
        requires
            old(self).wf(),
        ensures
            final(self).wf(),
            final(self)@ == old(self)@.cleared(window_id, packed_rgb(0, 0, 0)),
    {
        let color: u32 = pack_rgb(0, 0, 0);
        self.clear_inner(window_id, color)
    }

    /// Marks window `window_id` dirty, when it is known, and queues a redraw of it.
    pub fn present(&mut self, window_id: u64)
        requires
            old(self).wf(),
        ensures
            final(self).wf(),
            final(self)@ == old(self)@.presented(window_id),
    {
        match self.state.windows.remove(&window_id) {
            Some(window) => {
                let mut window = window;
                window.needs_redraw = true;
                self.state.windows.insert(window_id, window);
            },
            None => {
                assert(self.state.windows@ =~= old(self).state.windows@);
            },
        }
        self.state.pending_commands.push(WindowCommand::Present { window_id });
        assert(self@.state.windows =~= old(self)@.presented(window_id).state.windows);
        assert(self@.state.commands =~= old(self)@.presented(window_id).state.commands);
    }

    /// Records the new position of window `window_id`, when it is known, and queues the move.
    pub fn set_position(&mut self, window_id: u64, x: i32, y: i32)
        requires
            old(self).wf(),
        ensures
            final(self).wf(),
            final(self)@ == old(self)@.moved(window_id, x, y),
    {
        match self.state.windows.remove(&window_id) {
            Some(window) => {
                let mut window = window;
                window.x = Some(x);
                window.y = Some(y);
                self.state.windows.insert(window_id, window);
            },
            None => {
                assert(self.state.windows@ =~= old(self).state.windows@);
            },
        }
        self.state.pending_commands.push(WindowCommand::SetPosition { window_id, x, y });
        assert(self@.state.windows =~= old(self)@.moved(window_id, x, y).state.windows);
        assert(self@.state.commands =~= old(self)@.moved(window_id, x, y).state.commands);
    }

    /// Records whether window `window_id` stays on top, when it is known, and queues the change.
    pub fn set_always_on_top(&mut self, window_id: u64, always_on_top: bool)
        requires
            old(self).wf(),
        ensures
            final(self).wf(),
            final(self)@ == old(self)@.pinned(window_id, always_on_top),
    {
        match self.state.windows.remove(&window_id) {
            Some(window) => {
                let mut window = window;
                window.always_on_top = always_on_top;
                self.state.windows.insert(window_id, window);
            },
            None => {
                assert(self.state.windows@ =~= old(self).state.windows@);
            },
        }
        self.state.pending_commands.push(
            WindowCommand::SetAlwaysOnTop { window_id, always_on_top },
        );
        assert(self@.state.windows =~= old(self)@.pinned(window_id, always_on_top).state.windows);
        assert(self@.state.commands =~= old(self)@.pinned(
            window_id,
            always_on_top,
        ).state.commands);
    }

    /// Records the new title of window `window_id`, when it is known, and queues the change.
    pub fn set_title(&mut self, window_id: u64, title: String)
        requires
            old(self).wf(),
        ensures
            final(self).wf(),
            final(self)@ == old(self)@.retitled(window_id, title@),
    {
        match self.state.windows.remove(&window_id) {
            Some(window) => {
                let mut window = window;
                window.title = title.clone();
                self.state.windows.insert(window_id, window);
            },
            None => {
                assert(self.state.windows@ =~= old(self).state.windows@);
            },
        }
        self.state.pending_commands.push(WindowCommand::SetTitle { window_id, title });
        assert(self@.state.windows =~= old(self)@.retitled(window_id, title@).state.windows);
        assert(self@.state.commands =~= old(self)@.retitled(window_id, title@).state.commands);
    }

    /// Queues a change of whether window `window_id` lets mouse and keyboard input pass through.
    pub fn set_ignore_input(&mut self, window_id: u64, ignore: bool)
        requires
            old(self).wf(),
        ensures
            final(self).wf(),
            final(self)@ == old(self)@.queued(
                CommandView::SetIgnoreInput { window_id, ignore },
            ),
    {
        self.state.pending_commands.push(WindowCommand::SetIgnoreInput { window_id, ignore });
        assert(self@.state.commands =~= old(self)@.state.commands.push(
            CommandView::SetIgnoreInput { window_id, ignore },
        ));
    }

    /// Queues the closing of window `window_id`. The window stays registered until the worker
    /// has closed it.
    pub fn close_window(&mut self, window_id: u64)
        requires
            old(self).wf(),
        ensures
            final(self).wf(),
            final(self)@ == old(self)@.queued(CommandView::CloseWindow { window_id }),
    {
        self.state.pending_commands.push(WindowCommand::CloseWindow { window_id });
        assert(self@.state.commands =~= old(self)@.state.commands.push(
            CommandView::CloseWindow { window_id },
        ));
    }

    /// Whether window `window_id` is registered.
    pub fn window_exists(&self, window_id: u64) -> (exists: bool)
        ensures
            exists == self@.state.windows.contains_key(window_id),
    {
        self.state.windows.contains_key(&window_id)
    }

    /// Number of registered windows, reduced to 32 bits.
    pub fn window_count(&self) -> (count: u32)
        ensures
            count == self@.state.windows.len() % 0x1_0000_0000,
    {
        assert(self@.state.windows.dom() =~= self.state.windows@.dom());
        let n: usize = self.state.windows.len();
        let low: u64 = (n as u64) % 0x1_0000_0000;
        low as u32
    }
}

} // verus!
