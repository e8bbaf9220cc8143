//! The event-loop worker: it decides, the platform acts.

use vstd::prelude::*;
use tiny_skia::Pixmap;
use crate::renderer::pixel::argb_to_rgba;
use crate::renderer::window_manager::api::WindowManager;
use crate::renderer::window_manager::model::{
    Step,
    WorkerView,
    create_action,
    find_native,
    find_state,
    lemma_find_native,
    lemma_run_ignores_backlog,
    lemma_without_native,
    redraw_requests,
    without_native,
};
use crate::renderer::window_manager::surface::{
    pixmap_data,
    pixmap_height,
    pixmap_size_fits,
    pixmap_width,
    pixmap_write,
};
use crate::renderer::window_manager::types::{
    ActionView,
    CommandView,
    ManagedWindow,
    WindowAction,
    WindowCommand,
    WindowState,
    WorkerEvent,
    action_views,
    command_views,
    managed_views,
};

verus! {

broadcast use vstd::std_specs::hash::group_hash_axioms;

/// The application that runs in the event loop.
pub struct WindowManagerApp {
    pub windows: Vec<ManagedWindow>,
    pub backlog: Vec<WindowCommand>,
}

impl View for WindowManagerApp {
    type V = WorkerView;

    open spec fn view(&self) -> WorkerView {
        WorkerView {
            windows: managed_views(self.windows@),
            backlog: command_views(self.backlog@),
        }
    }
}

/// The step that a worker, a manager and the actions asked for so far stand for.
pub open spec fn step_of(
    worker: WindowManagerApp,
    manager: WindowManager,
    actions: Seq<WindowAction>,
) -> Step {
    Step { worker: worker@, manager: manager@, actions: action_views(actions) }
}

impl WindowManagerApp {
    /// The worker is well formed when its view is.
    pub open spec fn wf(&self) -> bool {
        self@.wf()
    }

    /// Creates a worker without native windows.
    pub fn new() -> (app: WindowManagerApp)
        ensures
            app.wf(),
            app@ == WorkerView::initial(),
    {
        let app = WindowManagerApp { windows: Vec::new(), backlog: Vec::new() };
        assert(app@.windows =~= Seq::empty());
        assert(app@.backlog =~= Seq::empty());
        app
    }

    /// Position of the first native window that presents logical window `window_id`.
    fn find_by_state_id(&self, window_id: u64) -> (found: Option<usize>)
        ensures
            match found {
                Some(i) => find_state(self@.windows, window_id, 0) == Some(i as int) && i
                    < self.windows@.len(),
                None => find_state(self@.windows, window_id, 0) is None,
            },
    {
        let mut i: usize = 0;
        while i < self.windows.len()
            invariant
                i <= self.windows@.len(),
                find_state(self@.windows, window_id, 0) == find_state(
                    self@.windows,
                    window_id,
                    i as int,
                ),
            decreases self.windows@.len() - i,
        {
            if self.windows[i].state_id == window_id {
                return Some(i);
            }
            i += 1;
        }
        None
    }

    /// Position of the native window with the identifier `window`.
    fn find_by_window(&self, window: u64) -> (found: Option<usize>)
        ensures
            match found {
                Some(i) => find_native(self@.windows, window, 0) == Some(i as int) && i
                    < self.windows@.len(),
                None => find_native(self@.windows, window, 0) is None,
            },
    {
        let mut i: usize = 0;
        while i < self.windows.len()
            invariant
                i <= self.windows@.len(),
                find_native(self@.windows, window, 0) == find_native(
                    self@.windows,
                    window,
                    i as int,
                ),
            decreases self.windows@.len() - i,
        {
            if self.windows[i].window == window {
                return Some(i);
            }
            i += 1;
        }
        None
    }

    /// Asks for a redraw of the native window of logical window `window_id`.
    fn request_redraw(&self, window_id: u64, actions: &mut Vec<WindowAction>)
        ensures
            action_views(final(actions)@) == (match find_state(self@.windows, window_id, 0) {
                Some(i) => action_views(old(actions)@).push(
                    ActionView::RequestRedraw { window: self@.windows[i].window },
                ),
                None => action_views(old(actions)@),
            }),
    {
        match self.find_by_state_id(window_id) {
            Some(i) => {
                actions.push(WindowAction::RequestRedraw { window: self.windows[i].window });
                assert(action_views(actions@) =~= action_views(old(actions)@).push(
                    ActionView::RequestRedraw { window: self@.windows[i as int].window },
                ));
            },
            None => {},
        }
    }

    /// Asks for the native window of logical window `window_id` to be moved.
    fn set_window_position(&self, window_id: u64, x: i32, y: i32, actions: &mut Vec<WindowAction>)
        ensures
            action_views(final(actions)@) == (match find_state(self@.windows, window_id, 0) {
                Some(i) => action_views(old(actions)@).push(
                    ActionView::SetPosition { window: self@.windows[i].window, x, y },
                ),
                None => action_views(old(actions)@),
            }),
    {
        match self.find_by_state_id(window_id) {
            Some(i) => {
                actions.push(WindowAction::SetPosition { window: self.windows[i].window, x, y });
                assert(action_views(actions@) =~= action_views(old(actions)@).push(
                    ActionView::SetPosition { window: self@.windows[i as int].window, x, y },
                ));
            },
            None => {},
        }
    }

    /// Keeping a window on top is not something the platform layer offers: nothing is asked.
    fn set_window_always_on_top(
        &self,
        _window_id: u64,
        _always_on_top: bool,
        actions: &mut Vec<WindowAction>,
    )
        ensures
            final(actions)@ == old(actions)@,
    {
    }

    /// Asks for the native window of logical window `window_id` to be renamed.
    fn set_window_title(&self, window_id: u64, title: &String, actions: &mut Vec<WindowAction>)
        ensures
            action_views(final(actions)@) == (match find_state(self@.windows, window_id, 0) {
                Some(i) => action_views(old(actions)@).push(
                    ActionView::SetTitle { window: self@.windows[i].window, title: title@ },
                ),
                None => action_views(old(actions)@),
            }),
    {
        match self.find_by_state_id(window_id) {
            Some(i) => {
                actions.push(
                    WindowAction::SetTitle { window: self.windows[i].window, title: title.clone() },
                );
                assert(action_views(actions@) =~= action_views(old(actions)@).push(
                    ActionView::SetTitle { window: self@.windows[i as int].window, title: title@ },
                ));
            },
            None => {},
        }
    }

    /// Asks for the native window of logical window `window_id` to pass mouse input through
    /// (`ignore`) or to take it again.
    fn set_window_ignore_input(&self, window_id: u64, ignore: bool, actions: &mut Vec<WindowAction>)
        ensures
            action_views(final(actions)@) == (match find_state(self@.windows, window_id, 0) {
                Some(i) => action_views(old(actions)@).push(
                    ActionView::SetCursorHittest {
                        window: self@.windows[i].window,
                        hittest: !ignore,
                    },
                ),
                None => action_views(old(actions)@),
            }),
    {
        match self.find_by_state_id(window_id) {
            Some(i) => {
                actions.push(
                    WindowAction::SetCursorHittest {
                        window: self.windows[i].window,
                        hittest: !ignore,
                    },
                );
                assert(action_views(actions@) =~= action_views(old(actions)@).push(
                    ActionView::SetCursorHittest {
                        window: self@.windows[i as int].window,
                        hittest: !ignore,
                    },
                ));
            },
            None => {},
        }
    }

    /// Forgets logical window `id`; when it was the last one, sets the exit flag and asks
    /// for the event loop to end.
    fn forget(&self, manager: &mut WindowManager, id: u64, actions: &mut Vec<WindowAction>)
        requires
            old(manager).wf(),
        ensures
            final(manager).wf(),
            step_of(*self, *final(manager), final(actions)@) == step_of(
                *self,
                *old(manager),
                old(actions)@,
            ).forget(id),
    {
        let ghost before = step_of(*self, *manager, actions@);
        match manager.state.windows.remove(&id) {
            Some(_) => {
                assert(manager@.state.windows =~= before.records().remove(id));
                if manager.state.windows.is_empty() {
                    manager.state.should_exit = true;
                    actions.push(WindowAction::ExitEventLoop);
                    assert(action_views(actions@) =~= before.actions.push(
                        ActionView::ExitEventLoop,
                    ));
                    assert(manager@.state.windows.dom() =~= Set::empty());
                } else {
                    assert(manager@.state.windows.dom() =~= manager.state.windows@.dom());
                }
            },
            None => {
                assert(manager@.state.windows =~= before.records());
            },
        }
    }

    /// Applies a queued close of logical window `window_id`.
    fn close_window_by_id(
        &mut self,
        manager: &mut WindowManager,
        window_id: u64,
        actions: &mut Vec<WindowAction>,
    )
        requires
            old(self).wf(),
            old(manager).wf(),
        ensures
            final(self).wf(),
            final(manager).wf(),
            final(self).backlog == old(self).backlog,
            step_of(*final(self), *final(manager), final(actions)@) == step_of(
                *old(self),
                *old(manager),
                old(actions)@,
            ).close_by_id(window_id),
    {
        let ghost before = step_of(*self, *manager, actions@);
        match self.find_by_state_id(window_id) {
            Some(i) => {
                let managed = self.windows.remove(i);
                actions.push(WindowAction::DestroyWindow { window: managed.window });
                assert(self@.windows =~= before.worker.windows.remove(i as int));
                assert(action_views(actions@) =~= before.actions.push(
                    ActionView::DestroyWindow { window: before.worker.windows[i as int].window },
                ));
                self.forget(manager, window_id, actions);
            },
            None => {},
        }
    }

    /// Applies one queued command other than a creation.
    fn apply_command(
        &mut self,
        manager: &mut WindowManager,
        command: &WindowCommand,
        actions: &mut Vec<WindowAction>,
    )
        requires
            old(self).wf(),
            old(manager).wf(),
        ensures
            final(self).wf(),
            final(manager).wf(),
            final(self).backlog == old(self).backlog,
            step_of(*final(self), *final(manager), final(actions)@) == step_of(
                *old(self),
                *old(manager),
                old(actions)@,
            ).apply(command@),
    {
        match command {
            WindowCommand::CreateWindow { .. } => {},
            WindowCommand::Present { window_id } => {
                self.request_redraw(*window_id, actions);
            },
            WindowCommand::SetPosition { window_id, x, y } => {
                self.set_window_position(*window_id, *x, *y, actions);
            },
            WindowCommand::SetAlwaysOnTop { window_id, always_on_top } => {
                self.set_window_always_on_top(*window_id, *always_on_top, actions);
            },
            WindowCommand::SetTitle { window_id, title } => {
                self.set_window_title(*window_id, title, actions);
            },
            WindowCommand::SetIgnoreInput { window_id, ignore } => {
                self.set_window_ignore_input(*window_id, *ignore, actions);
            },
            WindowCommand::CloseWindow { window_id } => {
                self.close_window_by_id(manager, *window_id, actions);
            },
        }
    }

    /// Asks for a redraw of every native window whose logical window is dirty.
    fn request_dirty_redraws(&self, manager: &WindowManager, actions: &mut Vec<WindowAction>)
        ensures
            action_views(final(actions)@) == action_views(old(actions)@) + redraw_requests(
                self@.windows,
                manager@.state.windows,
                self@.windows.len() as int,
            ),
    {
        let mut i: usize = 0;
        assert(action_views(actions@) =~= action_views(old(actions)@) + Seq::empty());
        while i < self.windows.len()
            invariant
                i <= self.windows@.len(),
                action_views(actions@) == action_views(old(actions)@) + redraw_requests(
                    self@.windows,
                    manager@.state.windows,
                    i as int,
                ),
            decreases self.windows@.len() - i,
        {
            let ghost so_far = action_views(actions@);
            let state_id: u64 = self.windows[i].state_id;
            let window: u64 = self.windows[i].window;
            let dirty: bool = match manager.state.windows.get(&state_id) {
                Some(record) => record.needs_redraw,
                None => false,
            };
            if dirty {
                actions.push(WindowAction::RequestRedraw { window });
                assert(action_views(actions@) =~= so_far.push(
                    ActionView::RequestRedraw { window },
                ));
            }
            i += 1;
            assert(action_views(actions@) =~= action_views(old(actions)@) + redraw_requests(
                self@.windows,
                manager@.state.windows,
                i as int,
            ));
        }
    }

    /// What a queued creation asks the platform for.
    fn create_window_action(command: &WindowCommand) -> (action: WindowAction)
        requires
            command@ is CreateWindow,
        ensures
            action@ == create_action(command@),
    {
        match command {
            WindowCommand::CreateWindow {
                id,
                width,
                height,
                title,
                x,
                y,
                always_on_top,
                transparent,
                decorations,
            } => {
                let position: Option<(i32, i32)> = match (x, y) {
                    (Some(px), Some(py)) => Some((*px, *py)),
                    _ => None,
                };
                WindowAction::CreateWindow {
                    id: *id,
                    width: *width,
                    height: *height,
                    title: title.clone(),
                    position,
                    always_on_top: *always_on_top,
                    transparent: *transparent,
                    decorations: *decorations,
                }
            },
            _ => WindowAction::ExitEventLoop,
        }
    }

    /// Applies the commands in order, up to the first creation or to the end.
    fn run(
        &mut self,
        manager: &mut WindowManager,
        commands: Vec<WindowCommand>,
        actions: &mut Vec<WindowAction>,
    )
        requires
            old(self).wf(),
            old(manager).wf(),
        ensures
            final(self).wf(),
            final(manager).wf(),
            step_of(*final(self), *final(manager), final(actions)@) == step_of(
                *old(self),
                *old(manager),
                old(actions)@,
            ).run(command_views(commands@)),
    {
        let mut queue = commands;
        let ghost all = command_views(commands@);
        let ghost goal = step_of(*self, *manager, actions@).run(all);
        let mut i: usize = 0;
        assert(all.skip(0) =~= all);
        while i < queue.len()
            invariant
                i <= queue@.len(),
                queue@ == commands@,
                all == command_views(commands@),
                self.wf(),
                manager.wf(),
                goal == step_of(*old(self), *old(manager), old(actions)@).run(all),
                goal == step_of(*self, *manager, actions@).run(all.skip(i as int)),
            decreases queue@.len() - i,
        {
            let ghost here = step_of(*self, *manager, actions@);
            let ghost rest = all.skip(i as int);
            assert(rest.len() > 0 && rest[0] == queue@[i as int]@);
            assert(rest.drop_first() =~= all.skip(i + 1));
            let is_create: bool = match &queue[i] {
                WindowCommand::CreateWindow { .. } => true,
                _ => false,
            };
            if is_create {
                let action = Self::create_window_action(&queue[i]);
                actions.push(action);
                let waiting = queue.split_off(i);
                self.backlog = waiting;
                assert(command_views(self.backlog@) =~= rest);
                assert(action_views(actions@) =~= here.actions.push(create_action(rest[0])));
                return ;
            }
            self.apply_command(manager, &queue[i], actions);
            i += 1;
        }
        assert(all.skip(i as int) =~= Seq::empty());
        self.backlog = Vec::new();
        assert(command_views(self.backlog@) =~= Seq::empty());
        self.request_dirty_redraws(manager, actions);
    }

    /// Takes the native window `window` with its fresh surface into the table, for logical
    /// window `id`, and asks for its first redraw.
    fn attach(
        &mut self,
        manager: &mut WindowManager,
        window: u64,
        id: u64,
        width: u32,
        height: u32,
        title: String,
        x: Option<i32>,
        y: Option<i32>,
        always_on_top: bool,
        transparent: bool,
        decorations: bool,
        pixmap: Pixmap,
        actions: &mut Vec<WindowAction>,
    )
        requires
            old(self).wf(),
            old(manager).wf(),
            pixmap_size_fits(width, height),
            pixmap_width(pixmap) == width,
            pixmap_height(pixmap) == height,
            pixmap_data(pixmap) == Seq::new((width * height * 4) as nat, |i: int| 0u8),
        ensures
            final(self).wf(),
            final(manager).wf(),
            final(self).backlog == old(self).backlog,
            step_of(*final(self), *final(manager), final(actions)@) == step_of(
                *old(self),
                *old(manager),
                old(actions)@,
            ).attach(
                window,
                CommandView::CreateWindow {
                    id,
                    width,
                    height,
                    title: title@,
                    x,
                    y,
                    always_on_top,
                    transparent,
                    decorations,
                },
            ),
    {
        let ghost before = step_of(*self, *manager, actions@);
        let ghost command = CommandView::CreateWindow {
            id,
            width,
            height,
            title: title@,
            x,
            y,
            always_on_top,
            transparent,
            decorations,
        };
        let ghost after = before.attach(window, command);
        proof {
            lemma_without_native(before.worker.windows, window);
        }
        match self.find_by_window(window) {
            Some(i) => {
                let _ = self.windows.remove(i);
                assert(self@.windows =~= before.worker.windows.remove(i as int));
            },
            None => {},
        }
        assert(self@.windows == without_native(before.worker.windows, window));
        let ghost left = self@.windows;
        self.windows.push(ManagedWindow { window, pixmap, state_id: id });
        assert(self@.windows =~= after.worker.windows);
        assert forall|i: int| 0 <= i < self@.windows.len() implies (
        #[trigger] self@.windows[i]).wf() by {
            if i < left.len() {
                assert(before.worker.windows.contains(left[i]));
            }
        }
        match manager.state.windows.remove(&id) {
            Some(record) => {
                let mut record = record;
                assert(before.records().contains_key(id));
                record.winit_id = Some(window);
                manager.state.windows.insert(id, record);
            },
            None => {
                assert(manager.state.windows@ =~= old(manager).state.windows@);
                if 1 <= id && id < manager.next_window_id {
                    match WindowState::new(
                        width,
                        height,
                        title,
                        x,
                        y,
                        always_on_top,
                        transparent,
                        decorations,
                    ) {
                        Some(record) => {
                            let mut record = record;
                            record.winit_id = Some(window);
                            manager.state.windows.insert(id, record);
                        },
                        None => {},
                    }
                }
            },
        }
        assert(manager@.state.windows =~= after.records());
        actions.push(WindowAction::RequestRedraw { window });
        assert(action_views(actions@) =~= after.actions);
    }

    /// The native window that the worker waits for exists: give it a surface, attach it, and
    /// go on with the backlog.
    fn window_created(
        &mut self,
        manager: &mut WindowManager,
        window: u64,
        actions: &mut Vec<WindowAction>,
    )
        requires
            old(self).wf(),
            old(manager).wf(),
        ensures
            final(self).wf(),
            final(manager).wf(),
            step_of(*final(self), *final(manager), final(actions)@) == step_of(
                *old(self),
                *old(manager),
                old(actions)@,
            ).window_created(window),
    {
        if self.backlog.len() == 0 {
            return ;
        }
        let ghost before = step_of(*self, *manager, actions@);
        let mut backlog: Vec<WindowCommand> = Vec::new();
        std::mem::swap(&mut backlog, &mut self.backlog);
        let command = backlog.remove(0);
        assert(command@ == before.worker.backlog[0]);
        assert(command_views(backlog@) =~= before.worker.backlog.drop_first());
        assert(command_views(self.backlog@) =~= Seq::empty());
        match command {
            WindowCommand::CreateWindow {
                id,
                width,
                height,
                title,
                x,
                y,
                always_on_top,
                transparent,
                decorations,
            } => {
                match Pixmap::new(width, height) {
                    Some(pixmap) => {
                        self.attach(
                            manager,
                            window,
                            id,
                            width,
                            height,
                            title,
                            x,
                            y,
                            always_on_top,
                            transparent,
                            decorations,
                            pixmap,
                            actions,
                        );
                    },
                    None => {
                        actions.push(WindowAction::SurfaceFailed { id, window });
                        assert(action_views(actions@) =~= before.actions.push(
                            ActionView::SurfaceFailed { id, window },
                        ));
                    },
                }
                proof {
                    let next = if pixmap_size_fits(width, height) {
                        before.attach(window, before.worker.backlog[0])
                    } else {
                        before.emit(ActionView::SurfaceFailed { id, window })
                    };
                    assert(step_of(*self, *manager, actions@) == next.with_backlog(Seq::empty()));
                    lemma_run_ignores_backlog(
                        next,
                        Seq::empty(),
                        before.worker.backlog.drop_first(),
                    );
                }
                self.run(manager, backlog, actions);
            },
            _ => {
                assert(false);
            },
        }
    }

    /// Takes the queue of the manager and runs it, unless the worker waits for a native
    /// window.
    fn drain(&mut self, manager: &mut WindowManager, actions: &mut Vec<WindowAction>)
        requires
            old(self).wf(),
            old(manager).wf(),
        ensures
            final(self).wf(),
            final(manager).wf(),
            step_of(*final(self), *final(manager), final(actions)@) == step_of(
                *old(self),
                *old(manager),
                old(actions)@,
            ).process_commands(),
    {
        if self.backlog.len() > 0 {
            return ;
        }
        let mut commands: Vec<WindowCommand> = Vec::new();
        std::mem::swap(&mut commands, &mut manager.state.pending_commands);
        assert(command_views(manager.state.pending_commands@) =~= Seq::empty());
        self.run(manager, commands, actions);
    }

    /// Takes every queued command from the manager and applies them in the order in which
    /// they were queued, each once. At a creation the worker asks for the native window and
    /// keeps the commands that follow until `WorkerEvent::WindowCreated` arrives. When no
    /// command is left, it asks for a redraw of every dirty window. A worker that waits for
    /// a native window takes nothing.
    pub fn process_commands(&mut self, manager: &mut WindowManager) -> (actions: Vec<WindowAction>)
        requires
            old(self).wf(),
            old(manager).wf(),
        ensures
            final(self).wf(),
            final(manager).wf(),
            step_of(*final(self), *final(manager), actions@) == Step::start(
                old(self)@,
                old(manager)@,
            ).process_commands(),
    {
        let mut actions: Vec<WindowAction> = Vec::new();
        assert(action_views(actions@) =~= Seq::empty());
        self.drain(manager, &mut actions);
        actions
    }

    /// Copies the pixels of the logical window of native window `window` onto its surface
    /// and asks for the surface to be shown.
    fn render_window(
        &mut self,
        manager: &mut WindowManager,
        window: u64,
        actions: &mut Vec<WindowAction>,
    )
        requires
            old(self).wf(),
            old(manager).wf(),
        ensures
            final(self).wf(),
            final(manager).wf(),
            final(self).backlog == old(self).backlog,
            step_of(*final(self), *final(manager), final(actions)@) == step_of(
                *old(self),
                *old(manager),
                old(actions)@,
            ).render(window),
    {
        let ghost before = step_of(*self, *manager, actions@);
        let i: usize = match self.find_by_window(window) {
            Some(i) => i,
            None => {
                return ;
            },
        };
        proof {
            lemma_find_native(before.worker.windows, window, 0);
        }
        let state_id: u64 = self.windows[i].state_id;
        let width: u32 = self.windows[i].pixmap.width();
        let height: u32 = self.windows[i].pixmap.height();
        assert(before.worker.windows[i as int].wf());
        let frame: Option<(Vec<u8>, bool)> = match manager.state.windows.get(&state_id) {
            Some(record) => {
                assert(before.records().contains_key(state_id));
                assert(before.records()[state_id] == record@);
                if record.width == width && record.height == height {
                    Some((argb_to_rgba(record.pixel_buffer.as_slice()), record.transparent))
                } else {
                    None
                }
            },
            None => None,
        };
        match frame {
            Some((bytes, transparent)) => {
                let mut managed = self.windows.remove(i);
                pixmap_write(&mut managed.pixmap, bytes.as_slice());
                self.windows.insert(i, managed);
                assert(self@.windows =~= before.render(window).worker.windows);
                match manager.state.windows.remove(&state_id) {
                    Some(record) => {
                        let mut record = record;
                        record.needs_redraw = false;
                        manager.state.windows.insert(state_id, record);
                    },
                    None => {},
                }
                assert(manager@.state.windows =~= before.render(window).records());
                actions.push(WindowAction::Present { window, width, height, transparent });
                assert(action_views(actions@) =~= before.render(window).actions);
            },
            None => {},
        }
    }

    /// Drops native window `window`, which the user closed, and forgets its logical window.
    fn close_window(
        &mut self,
        manager: &mut WindowManager,
        window: u64,
        actions: &mut Vec<WindowAction>,
    )
        requires
            old(self).wf(),
            old(manager).wf(),
        ensures
            final(self).wf(),
            final(manager).wf(),
            final(self).backlog == old(self).backlog,
            step_of(*final(self), *final(manager), final(actions)@) == step_of(
                *old(self),
                *old(manager),
                old(actions)@,
            ).close_native(window),
    {
        let ghost before = step_of(*self, *manager, actions@);
        let i: usize = match self.find_by_window(window) {
            Some(i) => i,
            None => {
                return ;
            },
        };
        proof {
            lemma_find_native(before.worker.windows, window, 0);
        }
        let managed = self.windows.remove(i);
        let state_id: u64 = managed.state_id;
        assert(self@.windows =~= before.worker.windows.remove(i as int));
        actions.push(WindowAction::DestroyWindow { window });
        assert(action_views(actions@) =~= before.actions.push(
            ActionView::DestroyWindow { window },
        ));
        let names_it: bool = match manager.state.windows.get(&state_id) {
            Some(record) => match record.winit_id {
                Some(native) => native == window,
                None => false,
            },
            None => false,
        };
        if names_it {
            self.forget(manager, state_id, actions);
        }
    }

    /// Marks the logical window of native window `window` dirty after a change of size.
    fn window_resized(&self, manager: &mut WindowManager, window: u64)
        requires
            old(manager).wf(),
        ensures
            final(manager).wf(),
            Step::start(self@, final(manager)@) == Step::start(self@, old(manager)@).resized(
                window,
            ),
    {
        let ghost before = Step::start(self@, manager@);
        let i: usize = match self.find_by_window(window) {
            Some(i) => i,
            None => {
                return ;
            },
        };
        let state_id: u64 = self.windows[i].state_id;
        match manager.state.windows.remove(&state_id) {
            Some(record) => {
                let mut record = record;
                record.needs_redraw = true;
                manager.state.windows.insert(state_id, record);
                assert(manager@.state.windows =~= before.resized(window).records());
            },
            None => {
                assert(manager.state.windows@ =~= old(manager).state.windows@);
            },
        }
    }

    /// Asks for the process to end when the exit flag is set and nothing is waited for.
    fn exit_check(&self, manager: &WindowManager, actions: &mut Vec<WindowAction>)
        ensures
            step_of(*self, *manager, final(actions)@) == step_of(
                *self,
                *manager,
                old(actions)@,
            ).exit_check(),
    {
        if self.backlog.len() == 0 && manager.state.should_exit {
            actions.push(WindowAction::ExitProcess);
            assert(action_views(actions@) =~= action_views(old(actions)@).push(
                ActionView::ExitProcess,
            ));
        }
    }

    /// Handles one event of the platform's loop and returns what the platform is to do, in
    /// order. After `WindowAction::CreateWindow`, which always comes last, the worker waits
    /// for `WorkerEvent::WindowCreated`.
    pub fn handle_event(&mut self, manager: &mut WindowManager, event: WorkerEvent) -> (actions:
        Vec<WindowAction>)
        requires
            old(self).wf(),
            old(manager).wf(),
        ensures
            final(self).wf(),
            final(manager).wf(),
            step_of(*final(self), *final(manager), actions@) == Step::start(
                old(self)@,
                old(manager)@,
            ).handle(event),
    {
        let mut actions: Vec<WindowAction> = Vec::new();
        assert(action_views(actions@) =~= Seq::empty());
        match event {
            WorkerEvent::CloseRequested { window } => {
                self.close_window(manager, window, &mut actions);
            },
            WorkerEvent::RedrawRequested { window } => {
                self.render_window(manager, window, &mut actions);
            },
            WorkerEvent::Resized { window } => {
                self.window_resized(manager, window);
            },
            WorkerEvent::AboutToWait => {
                if self.backlog.len() == 0 {
                    self.drain(manager, &mut actions);
                    self.exit_check(manager, &mut actions);
                }
            },
            WorkerEvent::WindowCreated { window } => {
                if self.backlog.len() > 0 {
                    self.window_created(manager, window, &mut actions);
                    self.exit_check(manager, &mut actions);
                }
            },
            WorkerEvent::Other => {},
        }
        actions
    }

    /// The bytes on the surface of native window `window`, four per pixel in the order red,
    /// green, blue, alpha; `None` when the worker holds no such window.
    pub fn surface_data(&self, window: u64) -> (data: Option<&[u8]>)
        ensures
            match data {
                Some(bytes) => {
                    &&& find_native(self@.windows, window, 0) matches Some(i)
                    &&& bytes@ == self@.windows[i].surface
                },
                None => find_native(self@.windows, window, 0) is None,
            },
    {
        match self.find_by_window(window) {
            Some(i) => Some(self.windows[i].pixmap.data()),
            None => None,
        }
    }
}

} // verus!
