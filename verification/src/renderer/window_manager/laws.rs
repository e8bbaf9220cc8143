//! What holds of the manager and its worker whatever the order of requests.

use vstd::prelude::*;
use crate::renderer::pixel::{
    alpha_of,
    blue_of,
    green_of,
    lemma_unpack_of_pack,
    packed_argb,
    packed_rgb,
    red_of,
    OPAQUE_ALPHA,
};
use crate::renderer::window_manager::api::ManagerView;
use crate::renderer::window_manager::model::{
    find_state,
    lemma_find_state,
    Step,
};
use crate::renderer::window_manager::surface::pixmap_size_fits;
use crate::renderer::window_manager::types::{
    ActionView,
    CommandView,
    ManagedView,
    StateView,
    WindowView,
    WorkerEvent,
};

verus! {

/// A pixel written inside a window is read back as written, and no other pixel changes.
pub proof fn lemma_pixel_written(window: WindowView, x: u32, y: u32, color: u32)
    requires
        window.wf(),
        window.in_bounds(x, y),
    ensures
        window.with_pixel(x, y, color).wf(),
        0 <= window.index_of(x, y) < window.pixels.len(),
        window.with_pixel(x, y, color).pixels[window.index_of(x, y)] == color,
        window.with_pixel(x, y, color).needs_redraw,
        forall|i: int|
            0 <= i < window.pixels.len() && i != window.index_of(x, y) ==> window.with_pixel(
                x,
                y,
                color,
            ).pixels[i] == window.pixels[i],
{
    assert(y * window.width + x < window.width * window.height) by (nonlinear_arith)
        requires
            x < window.width,
            y < window.height,
    ;
}

/// After `set_pixel` inside a known window, the buffer holds at that place the color with
/// its three channels as given and alpha 255.
pub proof fn lemma_set_pixel_reads_opaque(
    manager: ManagerView,
    id: u64,
    x: u32,
    y: u32,
    r: u8,
    g: u8,
    b: u8,
)
    requires
        manager.wf(),
        manager.state.windows.contains_key(id),
        manager.state.windows[id].in_bounds(x, y),
    ensures
        ({
            let after = manager.painted(id, x, y, packed_rgb(r, g, b));
            let color = after.state.windows[id].pixels[manager.state.windows[id].index_of(x, y)];
            &&& after.wf()
            &&& after.state.windows.contains_key(id)
            &&& color == packed_rgb(r, g, b)
            &&& alpha_of(color) == OPAQUE_ALPHA
            &&& red_of(color) == r
            &&& green_of(color) == g
            &&& blue_of(color) == b
        }),
{
    lemma_pixel_written(manager.state.windows[id], x, y, packed_rgb(r, g, b));
    lemma_unpack_of_pack(OPAQUE_ALPHA, r, g, b);
}

/// After `set_pixel_rgba` inside a known window, the buffer holds at that place the color
/// with all four channels as given: the alpha is kept exactly.
pub proof fn lemma_set_pixel_rgba_reads_alpha(
    manager: ManagerView,
    id: u64,
    x: u32,
    y: u32,
    r: u8,
    g: u8,
    b: u8,
    a: u8,
)
    requires
        manager.wf(),
        manager.state.windows.contains_key(id),
        manager.state.windows[id].in_bounds(x, y),
    ensures
        ({
            let after = manager.painted(id, x, y, packed_argb(a, r, g, b));
            let color = after.state.windows[id].pixels[manager.state.windows[id].index_of(x, y)];
            &&& after.wf()
            &&& after.state.windows.contains_key(id)
            &&& color == packed_argb(a, r, g, b)
            &&& alpha_of(color) == a
            &&& red_of(color) == r
            &&& green_of(color) == g
            &&& blue_of(color) == b
        }),
{
    lemma_pixel_written(manager.state.windows[id], x, y, packed_argb(a, r, g, b));
    lemma_unpack_of_pack(a, r, g, b);
}

/// Writing a pixel outside the window, or into a window that is not registered, changes
/// nothing at all.
pub proof fn lemma_paint_outside_changes_nothing(
    manager: ManagerView,
    id: u64,
    x: u32,
    y: u32,
    color: u32,
)
    requires
        !manager.state.windows.contains_key(id) || !manager.state.windows[id].in_bounds(x, y),
    ensures
        manager.painted(id, x, y, color) == manager,
{
    if manager.state.windows.contains_key(id) {
        assert(manager.state.windows.insert(id, manager.state.windows[id])
            =~= manager.state.windows);
    }
}

/// After `clear` every pixel of the window has the one color, and a second `clear` with the
/// same color changes nothing.
pub proof fn lemma_clear_is_uniform_and_idempotent(manager: ManagerView, id: u64, color: u32)
    requires
        manager.wf(),
        manager.state.windows.contains_key(id),
    ensures
        manager.cleared(id, color).wf(),
        manager.cleared(id, color).state.windows.contains_key(id),
        manager.cleared(id, color).state.windows[id].pixels.len()
            == manager.state.windows[id].pixels.len(),
        forall|i: int|
            0 <= i < manager.state.windows[id].pixels.len() ==> manager.cleared(
                id,
                color,
            ).state.windows[id].pixels[i] == color,
        manager.cleared(id, color).cleared(id, color) == manager.cleared(id, color),
{
    let once = manager.cleared(id, color);
    let twice = once.cleared(id, color);
    assert(twice.state.windows[id].pixels =~= once.state.windows[id].pixels);
    assert(twice.state.windows =~= once.state.windows);
}

/// Clearing a window that is not registered changes nothing.
pub proof fn lemma_clear_unknown_changes_nothing(manager: ManagerView, id: u64, color: u32)
    requires
        !manager.state.windows.contains_key(id),
    ensures
        manager.cleared(id, color) == manager,
{
}

/// A created window is registered at once under an identifier that no window had, the
/// number of windows grows by one, and the next identifier is larger. Whether the worker
/// was started plays no part.
pub proof fn lemma_create_registers(
    manager: ManagerView,
    width: u32,
    height: u32,
    title: Seq<char>,
    x: Option<i32>,
    y: Option<i32>,
    always_on_top: bool,
    transparent: bool,
    decorations: bool,
)
    requires
        manager.wf(),
        manager.create_refusal(width, height) is None,
    ensures
        ({
            let id = manager.next_window_id;
            let after = manager.created(
                width,
                height,
                title,
                x,
                y,
                always_on_top,
                transparent,
                decorations,
            );
            &&& after.wf()
            &&& !manager.state.windows.contains_key(id)
            &&& after.state.windows.contains_key(id)
            &&& after.state.windows.len() == manager.state.windows.len() + 1
            &&& after.next_window_id == id + 1
            &&& after.started == manager.started
            &&& forall|other: u64| #[trigger]
                manager.state.windows.contains_key(other) ==> after.state.windows.contains_key(
                    other,
                ) && after.state.windows[other] == manager.state.windows[other]
        }),
{
    let id = manager.next_window_id;
    let after = manager.created(
        width,
        height,
        title,
        x,
        y,
        always_on_top,
        transparent,
        decorations,
    );
    if manager.state.windows.contains_key(id) {
        assert(id < manager.next_window_id);
    }
    assert(after.state.windows.dom() =~= manager.state.windows.dom().insert(id));
    assert forall|other: u64| #[trigger] after.state.windows.contains_key(other) implies 1
        <= other < after.next_window_id && after.state.windows[other].wf() by {
        if other != id {
            assert(manager.state.windows.contains_key(other));
        }
    }
}

/// No request of the control side other than a creation changes the next identifier: the
/// identifiers that `create_window` returns increase strictly whatever is asked in between.
pub proof fn lemma_requests_keep_counter(
    manager: ManagerView,
    id: u64,
    x: u32,
    y: u32,
    color: u32,
    px: i32,
    py: i32,
    flag: bool,
    title: Seq<char>,
    command: CommandView,
)
    ensures
        manager.painted(id, x, y, color).next_window_id == manager.next_window_id,
        manager.cleared(id, color).next_window_id == manager.next_window_id,
        manager.presented(id).next_window_id == manager.next_window_id,
        manager.moved(id, px, py).next_window_id == manager.next_window_id,
        manager.pinned(id, flag).next_window_id == manager.next_window_id,
        manager.retitled(id, title).next_window_id == manager.next_window_id,
        manager.queued(command).next_window_id == manager.next_window_id,
{
}

/// Applying a queued command changes neither the next identifier nor whether the worker was
/// started.
pub proof fn lemma_apply_keeps_counter(step: Step, command: CommandView)
    ensures
        step.apply(command).manager.next_window_id == step.manager.next_window_id,
        step.apply(command).manager.started == step.manager.started,
{
}

/// Running commands changes neither the next identifier nor whether the worker was started.
pub proof fn lemma_run_keeps_counter(step: Step, commands: Seq<CommandView>)
    ensures
        step.run(commands).manager.next_window_id == step.manager.next_window_id,
        step.run(commands).manager.started == step.manager.started,
    decreases commands.len(),
{
    if commands.len() > 0 && !(commands[0] is CreateWindow) {
        lemma_apply_keeps_counter(step, commands[0]);
        lemma_run_keeps_counter(step.apply(commands[0]), commands.drop_first());
    }
}

/// No event that the worker handles changes the next identifier: the identifiers that
/// `create_window` returns increase strictly whatever the worker does in between.
pub proof fn lemma_worker_keeps_counter(step: Step, event: WorkerEvent)
    ensures
        step.handle(event).manager.next_window_id == step.manager.next_window_id,
        step.handle(event).manager.started == step.manager.started,
{
    match event {
        WorkerEvent::AboutToWait => {
            if step.worker.backlog.len() == 0 {
                let taken = step.with_state(
                    StateView {
                        commands: Seq::empty(),
                        ..step.manager.state
                    },
                );
                lemma_run_keeps_counter(taken, step.manager.state.commands);
            }
        },
        WorkerEvent::WindowCreated { window } => {
            if step.worker.backlog.len() > 0 {
                match step.worker.backlog[0] {
                    CommandView::CreateWindow { id, width, height, .. } => {
                        let next = if pixmap_size_fits(width, height) {
                            step.attach(window, step.worker.backlog[0])
                        } else {
                            step.emit(
                                ActionView::SurfaceFailed {
                                    id,
                                    window,
                                },
                            )
                        };
                        lemma_run_keeps_counter(next, step.worker.backlog.drop_first());
                    },
                    _ => {},
                }
            }
        },
        _ => {},
    }
}

/// Logical window `id`, if it is registered, has a native window.
pub open spec fn realized(step: Step, id: u64) -> bool {
    step.records().contains_key(id) ==> find_state(step.worker.windows, id, 0) is Some
}

/// None of the commands is a creation.
pub open spec fn no_creation(commands: Seq<CommandView>) -> bool {
    forall|i: int| 0 <= i < commands.len() ==> !(#[trigger] commands[i] is CreateWindow)
}

/// A queued close of a window without a native window is dropped: nothing changes, and
/// nothing is reported.
pub proof fn lemma_close_without_native_changes_nothing(step: Step, id: u64)
    requires
        find_state(step.worker.windows, id, 0) is None,
    ensures
        step.apply(CommandView::CloseWindow { window_id: id }) == step,
{
}

/// Once the worker has applied a queued close of a window that has a native window, the
/// window is no longer registered.
pub proof fn lemma_close_unregisters(step: Step, id: u64)
    requires
        realized(step, id),
    ensures
        !step.apply(CommandView::CloseWindow { window_id: id }).records().contains_key(id),
{
}

/// Applying a command registers no window.
pub proof fn lemma_apply_registers_nothing(step: Step, command: CommandView, id: u64)
    requires
        !step.records().contains_key(id),
    ensures
        !step.apply(command).records().contains_key(id),
{
}

/// A table that holds an entry for logical window `id` lets `find_state` find one.
pub proof fn lemma_find_state_finds(windows: Seq<ManagedView>, id: u64, k: int)
    requires
        0 <= k < windows.len(),
        windows[k].state_id == id,
    ensures
        find_state(windows, id, 0) is Some,
{
    lemma_find_state(windows, id, 0);
}

/// A window that has a native window still has one after any command other than a creation
/// was applied, unless the command closed it.
pub proof fn lemma_apply_keeps_realized(step: Step, command: CommandView, id: u64)
    requires
        realized(step, id),
    ensures
        realized(step.apply(command), id),
{
    match command {
        CommandView::CloseWindow { window_id } => {
            if window_id == id {
                lemma_close_unregisters(step, id);
            } else if step.records().contains_key(id) {
                lemma_find_state(step.worker.windows, window_id, 0);
                lemma_find_state(step.worker.windows, id, 0);
                match find_state(step.worker.windows, window_id, 0) {
                    Some(i) => {
                        let k = find_state(step.worker.windows, id, 0)->Some_0;
                        let left = step.worker.windows.remove(i);
                        if k < i {
                            assert(left[k] == step.worker.windows[k]);
                            lemma_find_state_finds(left, id, k);
                        } else {
                            assert(left[k - 1] == step.worker.windows[k]);
                            lemma_find_state_finds(left, id, k - 1);
                        }
                    },
                    None => {},
                }
            }
        },
        _ => {},
    }
}

/// Running commands registers no window.
pub proof fn lemma_run_registers_nothing(step: Step, commands: Seq<CommandView>, id: u64)
    requires
        !step.records().contains_key(id),
    ensures
        !step.run(commands).records().contains_key(id),
    decreases commands.len(),
{
    if commands.len() > 0 && !(commands[0] is CreateWindow) {
        lemma_apply_registers_nothing(step, commands[0], id);
        lemma_run_registers_nothing(step.apply(commands[0]), commands.drop_first(), id);
    }
}

/// When the worker has run a queue that ends with the close of window `id` and holds no
/// creation, the window is no longer registered, provided that it had a native window.
pub proof fn lemma_close_then_drain(step: Step, commands: Seq<CommandView>, id: u64)
    requires
        realized(step, id),
        no_creation(commands),
    ensures
        !step.run(commands.push(CommandView::CloseWindow { window_id: id })).records().contains_key(
            id,
        ),
    decreases commands.len(),
{
    let close = CommandView::CloseWindow { window_id: id };
    let all = commands.push(close);
    if commands.len() == 0 {
        lemma_close_unregisters(step, id);
        lemma_run_registers_nothing(step.apply(close), all.drop_first(), id);
    } else {
        assert(all[0] == commands[0]);
        assert(all.drop_first() =~= commands.drop_first().push(close));
        lemma_apply_keeps_realized(step, commands[0], id);
        assert(no_creation(commands.drop_first())) by {
            assert forall|i: int| 0 <= i < commands.drop_first().len() implies !(
            #[trigger] commands.drop_first()[i] is CreateWindow) by {
                assert(commands.drop_first()[i] == commands[i + 1]);
            }
        }
        lemma_close_then_drain(step.apply(commands[0]), commands.drop_first(), id);
    }
}

/// A window that is created and closed before the worker ran is no longer registered once
/// the worker has its native window and has run the rest of its backlog, provided that a
/// surface of its size can be allocated and no other creation stands in between.
pub proof fn lemma_create_then_close(
    step: Step,
    window: u64,
    commands: Seq<CommandView>,
    id: u64,
)
    requires
        step.worker.backlog.len() > 0,
        step.worker.backlog[0] matches CommandView::CreateWindow { id: created, width, height, .. }
            && created == id && pixmap_size_fits(width, height),
        step.worker.backlog.drop_first() == commands.push(
            CommandView::CloseWindow { window_id: id },
        ),
        no_creation(commands),
    ensures
        !step.window_created(window).records().contains_key(id),
{
    let attached = step.attach(window, step.worker.backlog[0]);
    let table = attached.worker.windows;
    assert(table[table.len() - 1].state_id == id);
    lemma_find_state_finds(table, id, table.len() - 1);
    lemma_close_then_drain(attached, commands, id);
}

/// The worker takes the whole queue: after it has processed the commands, the queue of the
/// manager is empty, and what it has not applied yet is its backlog.
pub proof fn lemma_process_empties_queue(step: Step)
    requires
        step.worker.backlog.len() == 0,
    ensures
        step.process_commands().manager.state.commands.len() == 0,
{
    let taken = step.with_state(
        StateView {
            commands: Seq::empty(),
            ..step.manager.state
        },
    );
    lemma_run_keeps_queue(taken, step.manager.state.commands);
}

/// Running commands does not touch the queue of the manager.
pub proof fn lemma_run_keeps_queue(step: Step, commands: Seq<CommandView>)
    ensures
        step.run(commands).manager.state.commands == step.manager.state.commands,
    decreases commands.len(),
{
    if commands.len() > 0 && !(commands[0] is CreateWindow) {
        lemma_run_keeps_queue(step.apply(commands[0]), commands.drop_first());
    }
}

/// Two views of one logical window that differ at most in what was drawn and said of it:
/// size, transparency and decorations, fixed when the window was created, are the same.
pub open spec fn same_frame(before: WindowView, after: WindowView) -> bool {
    &&& after.width == before.width
    &&& after.height == before.height
    &&& after.pixels.len() == before.pixels.len()
    &&& after.transparent == before.transparent
    &&& after.decorations == before.decorations
}

/// No request of the control side unregisters a window or changes its size, its transparency
/// or its decorations.
pub proof fn lemma_requests_keep_frame(
    manager: ManagerView,
    window: u64,
    id: u64,
    x: u32,
    y: u32,
    color: u32,
    px: i32,
    py: i32,
    flag: bool,
    title: Seq<char>,
    command: CommandView,
)
    requires
        manager.wf(),
        manager.state.windows.contains_key(window),
    ensures
        manager.painted(id, x, y, color).state.windows.contains_key(window),
        same_frame(
            manager.state.windows[window],
            manager.painted(id, x, y, color).state.windows[window],
        ),
        manager.cleared(id, color).state.windows.contains_key(window),
        same_frame(manager.state.windows[window], manager.cleared(id, color).state.windows[window]),
        manager.presented(id).state.windows.contains_key(window),
        same_frame(manager.state.windows[window], manager.presented(id).state.windows[window]),
        manager.moved(id, px, py).state.windows.contains_key(window),
        same_frame(manager.state.windows[window], manager.moved(id, px, py).state.windows[window]),
        manager.pinned(id, flag).state.windows.contains_key(window),
        same_frame(manager.state.windows[window], manager.pinned(id, flag).state.windows[window]),
        manager.retitled(id, title).state.windows.contains_key(window),
        same_frame(
            manager.state.windows[window],
            manager.retitled(id, title).state.windows[window],
        ),
        manager.queued(command).state.windows.contains_key(window),
        same_frame(manager.state.windows[window], manager.queued(command).state.windows[window]),
{
    if manager.state.windows.contains_key(id) && manager.state.windows[id].in_bounds(x, y) {
        lemma_pixel_written(manager.state.windows[id], x, y, color);
    }
}

/// Two views of one logical window that differ at most in the dirty flag and in the native
/// window: what the control side drew and said is the same.
pub open spec fn same_content(before: WindowView, after: WindowView) -> bool {
    after == (WindowView { needs_redraw: after.needs_redraw, winit_id: after.winit_id, ..before })
}

/// A step of the worker that changes of the windows registered before at most the dirty flag
/// and the native window.
pub open spec fn keeps_content(before: Step, after: Step) -> bool {
    forall|id: u64|
        before.records().contains_key(id) && #[trigger] after.records().contains_key(id)
            ==> same_content(before.records()[id], after.records()[id])
}

/// Applying a queued command changes neither the pixels nor the metadata of a window.
pub proof fn lemma_apply_keeps_content(step: Step, command: CommandView)
    ensures
        keeps_content(step, step.apply(command)),
        forall|id: u64| #[trigger]
            step.apply(command).records().contains_key(id) ==> step.records().contains_key(id),
{
}

/// Running commands changes neither the pixels nor the metadata of a window.
pub proof fn lemma_run_keeps_content(step: Step, commands: Seq<CommandView>)
    ensures
        keeps_content(step, step.run(commands)),
        forall|id: u64| #[trigger]
            step.run(commands).records().contains_key(id) ==> step.records().contains_key(id),
    decreases commands.len(),
{
    if commands.len() > 0 && !(commands[0] is CreateWindow) {
        let next = step.apply(commands[0]);
        lemma_apply_keeps_content(step, commands[0]);
        lemma_run_keeps_content(next, commands.drop_first());
        assert forall|id: u64|
            step.records().contains_key(id) && #[trigger] step.run(commands).records().contains_key(
                id,
            ) implies same_content(step.records()[id], step.run(commands).records()[id]) by {
            assert(next.records().contains_key(id));
        }
    }
}

/// Whatever event the worker handles, a window that is registered before and after keeps its
/// pixels, its size and its metadata: the worker changes only the dirty flag and the native
/// window of a logical window. A change of size of the native window, too, leaves the buffer
/// as it is.
pub proof fn lemma_worker_keeps_content(step: Step, event: WorkerEvent)
    ensures
        keeps_content(step, step.handle(event)),
{
    match event {
        WorkerEvent::AboutToWait => {
            if step.worker.backlog.len() == 0 {
                let taken = step.with_state(
                    StateView { commands: Seq::empty(), ..step.manager.state },
                );
                lemma_run_keeps_content(taken, step.manager.state.commands);
                let last = taken.run(step.manager.state.commands);
                assert(step.handle(event).records() == last.records());
                assert forall|id: u64|
                    step.records().contains_key(id) && #[trigger] last.records().contains_key(
                        id,
                    ) implies same_content(step.records()[id], last.records()[id]) by {
                    assert(taken.records().contains_key(id));
                }
            }
        },
        WorkerEvent::WindowCreated { window } => {
            if step.worker.backlog.len() > 0 {
                match step.worker.backlog[0] {
                    CommandView::CreateWindow { id, width, height, .. } => {
                        let next = if pixmap_size_fits(width, height) {
                            step.attach(window, step.worker.backlog[0])
                        } else {
                            step.emit(ActionView::SurfaceFailed { id, window })
                        };
                        let last = next.run(step.worker.backlog.drop_first());
                        lemma_run_keeps_content(next, step.worker.backlog.drop_first());
                        assert forall|other: u64|
                            step.records().contains_key(other) && #[trigger] last.records().contains_key(
                                other,
                            ) implies same_content(
                            step.records()[other],
                            last.records()[other],
                        ) by {
                            assert(next.records().contains_key(other));
                        }
                    },
                    _ => {},
                }
            }
        },
        _ => {},
    }
}

} // verus!
