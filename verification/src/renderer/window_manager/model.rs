//! What the event-loop worker does, as steps on the views of worker and manager.

use vstd::prelude::*;
use crate::renderer::pixel::rgba_bytes;
use crate::renderer::window_manager::api::ManagerView;
use crate::renderer::window_manager::surface::pixmap_size_fits;
use crate::renderer::window_manager::types::{
    ActionView,
    CommandView,
    ManagedView,
    StateView,
    WindowView,
    WorkerEvent,
};

verus! {

/// The first position at or after `from` whose native window presents logical window `id`.
pub open spec fn find_state(windows: Seq<ManagedView>, id: u64, from: int) -> Option<int>
    decreases windows.len() - from,
{
    if from < 0 || from >= windows.len() {
        None
    } else if windows[from].state_id == id {
        Some(from)
    } else {
        find_state(windows, id, from + 1)
    }
}

/// The first position at or after `from` whose native window has the identifier `window`.
pub open spec fn find_native(windows: Seq<ManagedView>, window: u64, from: int) -> Option<int>
    decreases windows.len() - from,
{
    if from < 0 || from >= windows.len() {
        None
    } else if windows[from].window == window {
        Some(from)
    } else {
        find_native(windows, window, from + 1)
    }
}

/// What `find_native` finds is the first entry at or after `from` with that identifier.
pub proof fn lemma_find_native(windows: Seq<ManagedView>, window: u64, from: int)
    requires
        0 <= from,
    ensures
        match find_native(windows, window, from) {
            Some(i) => {
                &&& from <= i < windows.len()
                &&& windows[i].window == window
                &&& forall|j: int| from <= j < i ==> (#[trigger] windows[j]).window != window
            },
            None => forall|j: int|
                from <= j < windows.len() ==> (#[trigger] windows[j]).window != window,
        },
    decreases windows.len() - from,
{
    if from < windows.len() && windows[from].window != window {
        lemma_find_native(windows, window, from + 1);
    }
}

/// What `find_state` finds is the first entry at or after `from` for that logical window.
pub proof fn lemma_find_state(windows: Seq<ManagedView>, id: u64, from: int)
    requires
        0 <= from,
    ensures
        match find_state(windows, id, from) {
            Some(i) => {
                &&& from <= i < windows.len()
                &&& windows[i].state_id == id
                &&& forall|j: int| from <= j < i ==> (#[trigger] windows[j]).state_id != id
            },
            None => forall|j: int|
                from <= j < windows.len() ==> (#[trigger] windows[j]).state_id != id,
        },
    decreases windows.len() - from,
{
    if from < windows.len() && windows[from].state_id != id {
        lemma_find_state(windows, id, from + 1);
    }
}

/// A table of distinct native windows holds none with the identifier `window` once the entry
/// that `without_native` looks for is gone.
pub proof fn lemma_without_native(windows: Seq<ManagedView>, window: u64)
    requires
        distinct_natives(windows),
    ensures
        distinct_natives(without_native(windows, window)),
        forall|j: int|
            0 <= j < without_native(windows, window).len() ==> (#[trigger] without_native(
                windows,
                window,
            )[j]).window != window,
        forall|j: int|
            0 <= j < without_native(windows, window).len() ==> windows.contains(
                #[trigger] without_native(windows, window)[j],
            ),
{
    lemma_find_native(windows, window, 0);
    let left = without_native(windows, window);
    match find_native(windows, window, 0) {
        Some(i) => {
            assert forall|j: int| 0 <= j < left.len() implies (#[trigger] left[j]).window
                != window && windows.contains(left[j]) && left[j] == windows[if j < i {
                j
            } else {
                j + 1
            }] by {
                if j < i {
                    assert(left[j] == windows[j]);
                } else {
                    assert(left[j] == windows[j + 1]);
                }
            }
        },
        None => {},
    }
}

/// The table without the entry of native window `window`, if it has one.
pub open spec fn without_native(windows: Seq<ManagedView>, window: u64) -> Seq<ManagedView> {
    match find_native(windows, window, 0) {
        Some(i) => windows.remove(i),
        None => windows,
    }
}

/// No two entries of the table have the same native identifier.
pub open spec fn distinct_natives(windows: Seq<ManagedView>) -> bool {
    forall|i: int, j: int|
        0 <= i < j < windows.len() ==> (#[trigger] windows[i]).window != (
        #[trigger] windows[j]).window
}

/// One redraw request for each of the first `upto` native windows whose logical window is
/// dirty, in the order of the table.
pub open spec fn redraw_requests(
    windows: Seq<ManagedView>,
    records: Map<u64, WindowView>,
    upto: int,
) -> Seq<ActionView>
    decreases upto,
{
    if upto <= 0 || upto > windows.len() {
        Seq::empty()
    } else {
        let before = redraw_requests(windows, records, upto - 1);
        let managed = windows[upto - 1];
        if records.contains_key(managed.state_id) && records[managed.state_id].needs_redraw {
            before.push(ActionView::RequestRedraw { window: managed.window })
        } else {
            before
        }
    }
}

/// What a queued creation asks the platform for. The window is placed only when both
/// coordinates are given.
pub open spec fn create_action(command: CommandView) -> ActionView
    recommends
        command is CreateWindow,
{
    match command {
        CommandView::CreateWindow {
            id,
            width,
            height,
            title,
            x,
            y,
            always_on_top,
            transparent,
            decorations,
        } => ActionView::CreateWindow {
            id,
            width,
            height,
            title,
            position: match (x, y) {
                (Some(px), Some(py)) => Some((px, py)),
                _ => None,
            },
            always_on_top,
            transparent,
            decorations,
        },
        _ => ActionView::ExitEventLoop,
    }
}

/// What the worker holds: its native windows in the order of their creation, and the commands
/// it has taken from the queue and not yet applied. The backlog is empty unless the worker
/// waits for a native window; then the creation it waits for comes first.
pub struct WorkerView {
    pub windows: Seq<ManagedView>,
    pub backlog: Seq<CommandView>,
}

impl WorkerView {
    /// A worker without native windows that waits for nothing.
    pub open spec fn initial() -> WorkerView {
        WorkerView { windows: Seq::empty(), backlog: Seq::empty() }
    }

    /// Every surface is well formed, native identifiers are distinct, and a backlog starts
    /// with a creation.
    pub open spec fn wf(self) -> bool {
        &&& forall|i: int| 0 <= i < self.windows.len() ==> (#[trigger] self.windows[i]).wf()
        &&& distinct_natives(self.windows)
        &&& self.backlog.len() > 0 ==> self.backlog[0] is CreateWindow
    }
}

/// A moment in the work of the worker: its own state, the state of the manager, and the
/// actions it has asked for so far, oldest first.
pub struct Step {
    pub worker: WorkerView,
    pub manager: ManagerView,
    pub actions: Seq<ActionView>,
}

impl Step {
    /// The start of the handling of one event: nothing asked for yet.
    pub open spec fn start(worker: WorkerView, manager: ManagerView) -> Step {
        Step { worker, manager, actions: Seq::empty() }
    }

    /// The step with one more action asked for.
    pub open spec fn emit(self, action: ActionView) -> Step {
        Step { actions: self.actions.push(action), ..self }
    }

    /// The step with the table of native windows replaced.
    pub open spec fn with_windows(self, windows: Seq<ManagedView>) -> Step {
        Step { worker: WorkerView { windows, ..self.worker }, ..self }
    }

    /// The step with the backlog replaced.
    pub open spec fn with_backlog(self, backlog: Seq<CommandView>) -> Step {
        Step { worker: WorkerView { backlog, ..self.worker }, ..self }
    }

    /// The step with the shared state replaced.
    pub open spec fn with_state(self, state: StateView) -> Step {
        Step { manager: self.manager.with_state(state), ..self }
    }

    /// The logical windows.
    pub open spec fn records(self) -> Map<u64, WindowView> {
        self.manager.state.windows
    }

    /// Logical window `id` leaves the shared state, if it is there. When it was the last one,
    /// the exit flag is set and the event loop is asked to end.
    pub open spec fn forget(self, id: u64) -> Step {
        if self.records().contains_key(id) {
            let left = self.records().remove(id);
            if left.is_empty() {
                self.with_state(
                    StateView { windows: left, should_exit: true, ..self.manager.state },
                ).emit(ActionView::ExitEventLoop)
            } else {
                self.with_state(StateView { windows: left, ..self.manager.state })
            }
        } else {
            self
        }
    }

    /// A queued close of logical window `id`: its first native window is dropped and the
    /// logical window forgotten. Without a native window nothing happens.
    pub open spec fn close_by_id(self, id: u64) -> Step {
        match find_state(self.worker.windows, id, 0) {
            Some(i) => self.with_windows(self.worker.windows.remove(i)).emit(
                ActionView::DestroyWindow { window: self.worker.windows[i].window },
            ).forget(id),
            None => self,
        }
    }

    /// One queued command other than a creation, applied. A command for a logical window
    /// without a native window is dropped.
    pub open spec fn apply(self, command: CommandView) -> Step {
        match command {
            CommandView::CreateWindow { .. } => self,
            CommandView::Present { window_id } => match find_state(
                self.worker.windows,
                window_id,
                0,
            ) {
                Some(i) => self.emit(
                    ActionView::RequestRedraw { window: self.worker.windows[i].window },
                ),
                None => self,
            },
            CommandView::SetPosition { window_id, x, y } => match find_state(
                self.worker.windows,
                window_id,
                0,
            ) {
                Some(i) => self.emit(
                    ActionView::SetPosition { window: self.worker.windows[i].window, x, y },
                ),
                None => self,
            },
            CommandView::SetAlwaysOnTop { .. } => self,
            CommandView::SetTitle { window_id, title } => match find_state(
                self.worker.windows,
                window_id,
                0,
            ) {
                Some(i) => self.emit(
                    ActionView::SetTitle { window: self.worker.windows[i].window, title },
                ),
                None => self,
            },
            CommandView::SetIgnoreInput { window_id, ignore } => match find_state(
                self.worker.windows,
                window_id,
                0,
            ) {
                Some(i) => self.emit(
                    ActionView::SetCursorHittest {
                        window: self.worker.windows[i].window,
                        hittest: !ignore,
                    },
                ),
                None => self,
            },
            CommandView::CloseWindow { window_id } => self.close_by_id(window_id),
        }
    }

    /// A redraw is asked for each native window whose logical window is dirty.
    pub open spec fn redraw_dirty(self) -> Step {
        Step {
            actions: self.actions + redraw_requests(
                self.worker.windows,
                self.records(),
                self.worker.windows.len() as int,
            ),
            ..self
        }
    }

    /// The commands are applied in order. At a creation the worker asks for the native window
    /// and keeps that command and those after it as its backlog. When no command is left,
    /// the dirty windows are asked to redraw.
    pub open spec fn run(self, commands: Seq<CommandView>) -> Step
        decreases commands.len(),
    {
        if commands.len() == 0 {
            self.with_backlog(Seq::empty()).redraw_dirty()
        } else if commands[0] is CreateWindow {
            self.with_backlog(commands).emit(create_action(commands[0]))
        } else {
            self.apply(commands[0]).run(commands.drop_first())
        }
    }

    /// The native window `window` with a fresh surface joins the table in the name of logical
    /// window `id`, in place of an older entry of the same native window. The logical window
    /// learns its native identifier; when it is not registered, it is registered now, provided
    /// that the manager issued `id` and the pixels can be counted. A first redraw is asked for.
    pub open spec fn attach(self, window: u64, command: CommandView) -> Step
        recommends
            command is CreateWindow,
    {
        match command {
            CommandView::CreateWindow {
                id,
                width,
                height,
                title,
                x,
                y,
                always_on_top,
                transparent,
                decorations,
            } => {
                let managed = ManagedView {
                    window,
                    state_id: id,
                    width,
                    height,
                    surface: Seq::new((width * height * 4) as nat, |i: int| 0u8),
                };
                let records = if self.records().contains_key(id) {
                    self.records().insert(id, self.records()[id].with_winit_id(window))
                } else if 1 <= id < self.manager.next_window_id && width * height <= u32::MAX {
                    self.records().insert(
                        id,
                        WindowView::created(
                            width,
                            height,
                            title,
                            x,
                            y,
                            always_on_top,
                            transparent,
                            decorations,
                        ).with_winit_id(window),
                    )
                } else {
                    self.records()
                };
                self.with_windows(without_native(self.worker.windows, window).push(managed))
                    .with_state(StateView { windows: records, ..self.manager.state }).emit(
                    ActionView::RequestRedraw { window },
                )
            },
            _ => self,
        }
    }

    /// The platform reports the native window that the worker waits for. With a surface the
    /// window is attached, without one the failure is reported; then the rest of the backlog
    /// runs. A report that nothing waits for is ignored.
    pub open spec fn window_created(self, window: u64) -> Step {
        if self.worker.backlog.len() == 0 {
            self
        } else {
            match self.worker.backlog[0] {
                CommandView::CreateWindow { id, width, height, .. } => {
                    let next = if pixmap_size_fits(width, height) {
                        self.attach(window, self.worker.backlog[0])
                    } else {
                        self.emit(ActionView::SurfaceFailed { id, window })
                    };
                    next.run(self.worker.backlog.drop_first())
                },
                _ => self,
            }
        }
    }

    /// The queue of the manager is taken whole and run. A worker that waits for a native
    /// window takes nothing.
    pub open spec fn process_commands(self) -> Step {
        if self.worker.backlog.len() > 0 {
            self
        } else {
            self.with_state(StateView { commands: Seq::empty(), ..self.manager.state }).run(
                self.manager.state.commands,
            )
        }
    }

    /// The platform asks for the content of native window `window`. When its logical window
    /// is registered and as large as the surface, the surface takes the pixels as RGBA bytes,
    /// the logical window is clean, and the surface is to be shown. Otherwise nothing happens.
    pub open spec fn render(self, window: u64) -> Step {
        match find_native(self.worker.windows, window, 0) {
            Some(i) => {
                let managed = self.worker.windows[i];
                let id = managed.state_id;
                if self.records().contains_key(id) && self.records()[id].width == managed.width
                    && self.records()[id].height == managed.height {
                    let record = self.records()[id];
                    self.with_windows(
                        self.worker.windows.update(
                            i,
                            ManagedView { surface: rgba_bytes(record.pixels), ..managed },
                        ),
                    ).with_state(
                        self.manager.state.update_window(id, record.with_redraw(false)),
                    ).emit(
                        ActionView::Present {
                            window,
                            width: managed.width,
                            height: managed.height,
                            transparent: record.transparent,
                        },
                    )
                } else {
                    self
                }
            },
            None => self,
        }
    }

    /// The user closes native window `window`: it is dropped, and its logical window is
    /// forgotten if that one still names it. A window that the worker does not hold changes
    /// nothing.
    pub open spec fn close_native(self, window: u64) -> Step {
        match find_native(self.worker.windows, window, 0) {
            Some(i) => {
                let id = self.worker.windows[i].state_id;
                let dropped = self.with_windows(self.worker.windows.remove(i)).emit(
                    ActionView::DestroyWindow { window },
                );
                if self.records().contains_key(id) && self.records()[id].winit_id == Some(
                    window,
                ) {
                    dropped.forget(id)
                } else {
                    dropped
                }
            },
            None => self,
        }
    }

    /// Native window `window` changed its size: its logical window is dirty.
    pub open spec fn resized(self, window: u64) -> Step {
        match find_native(self.worker.windows, window, 0) {
            Some(i) => {
                let id = self.worker.windows[i].state_id;
                if self.records().contains_key(id) {
                    self.with_state(
                        self.manager.state.update_window(id, self.records()[id].with_redraw(true)),
                    )
                } else {
                    self
                }
            },
            None => self,
        }
    }

    /// When the worker waits for nothing and the exit flag is set, the process is to end.
    pub open spec fn exit_check(self) -> Step {
        if self.worker.backlog.len() == 0 && self.manager.state.should_exit {
            self.emit(ActionView::ExitProcess)
        } else {
            self
        }
    }

    /// One event of the platform, handled.
    pub open spec fn handle(self, event: WorkerEvent) -> Step {
        match event {
            WorkerEvent::CloseRequested { window } => self.close_native(window),
            WorkerEvent::RedrawRequested { window } => self.render(window),
            WorkerEvent::Resized { window } => self.resized(window),
            WorkerEvent::AboutToWait => if self.worker.backlog.len() > 0 {
                self
            } else {
                self.process_commands().exit_check()
            },
            WorkerEvent::WindowCreated { window } => if self.worker.backlog.len() > 0 {
                self.window_created(window).exit_check()
            } else {
                self
            },
            WorkerEvent::Other => self,
        }
    }
}

/// Applying a command neither reads nor changes the backlog.
pub proof fn lemma_apply_keeps_backlog(step: Step, backlog: Seq<CommandView>, command: CommandView)
    ensures
        step.with_backlog(backlog).apply(command) == step.apply(command).with_backlog(backlog),
{
}

/// A run replaces the backlog: what the backlog was before does not matter.
pub proof fn lemma_run_ignores_backlog(
    step: Step,
    backlog: Seq<CommandView>,
    commands: Seq<CommandView>,
)
    ensures
        step.with_backlog(backlog).run(commands) == step.run(commands),
    decreases commands.len(),
{
    if commands.len() == 0 {
    } else if commands[0] is CreateWindow {
    } else {
        lemma_apply_keeps_backlog(step, backlog, commands[0]);
        lemma_run_ignores_backlog(step.apply(commands[0]), backlog, commands.drop_first());
    }
}

} // verus!
