//! Laws of the manager, proved of every state and every event.

use vstd::prelude::*;
use crate::buttons::{Button, MouseButton, button_kind};
use crate::event::{Event, emitted, transition};
use crate::geometry::or_zero;
use crate::manager::{DisplayAction, ManagerState, Mode};
use crate::window::WindowHandle;
use crate::window_handler::lemma_created_wf;

verus! {

/// Every event keeps the manager's invariant.
pub proof fn law_events_keep_invariant(pre: ManagerState, event: Event, post: ManagerState)
    requires
        pre.wf(),
        transition(pre, event, post),
    ensures
        post.wf(),
{
    match event {
        Event::WindowCreated { handle, program, geometry, can_move, can_resize } => {
            lemma_created_wf(pre, post, handle, program@, geometry, can_move, can_resize);
        },
        Event::WindowDestroyed(handle) => {
            pre.lemma_after_destroy_wf(handle);
        },
        Event::ButtonCombo { modmask, button, handle } => {
            pre.lemma_after_mouse_combo_wf(button, handle);
        },
        Event::DragEnded(handle) => {
            pre.lemma_after_drag_end_wf(handle);
        },
    }
}

/// After any event, a window that is floating has its floating offset computed.
pub proof fn law_floating_window_has_offset(
    pre: ManagerState,
    event: Event,
    post: ManagerState,
    i: int,
)
    requires
        pre.wf(),
        transition(pre, event, post),
        0 <= i < post.windows.len(),
    ensures
        post.windows[i].floating ==> post.windows[i].floating_offset.is_some(),
{
    law_events_keep_invariant(pre, event, post);
    assert(post.windows[i].wf());
}

/// Pressing the primary button, while no drag is in progress, on a tiled window
/// that can move: the window becomes floating with the offset between its normal
/// geometry and its container, the mode names it as the window being moved, it
/// stands first in the window list with the other windows behind it in their old
/// order, and exactly one action, the start of its move, is appended to the queue.
pub proof fn law_move_start_floats_tiled_window(
    pre: ManagerState,
    button: Button,
    handle: WindowHandle,
    i: int,
)
    requires
        pre.wf(),
        pre.mode == Mode::Normal,
        button_kind(button) == MouseButton::Primary,
        0 <= i < pre.windows.len(),
        pre.windows[i].handle == handle,
        !pre.windows[i].floating,
        pre.windows[i].movable,
    ensures
        ({
            let post = pre.after_mouse_combo(button, handle);
            let w = post.windows[0];
            &&& w.handle == handle
            &&& w.floating
            &&& w.floating_offset == Some(
                pre.windows[i].normal.minus(or_zero(pre.windows[i].container_size)),
            )
            &&& w.start_loc == w.floating_offset
            &&& post.mode == Mode::MovingWindow(handle)
            &&& post.windows.len() == pre.windows.len()
            &&& post.windows.subrange(1, post.windows.len() as int) == pre.windows.remove(i)
            &&& post.actions == pre.actions.push(DisplayAction::StartMovingWindow(handle))
            &&& post.actions.len() == pre.actions.len() + 1
        }),
{
    pre.lemma_index_of(handle, i);
    let post = pre.after_mouse_combo(button, handle);
    assert(post.windows.subrange(1, post.windows.len() as int) =~= pre.windows.remove(i));
}

/// Pressing the primary button on a window that cannot move changes nothing:
/// no action, the same mode, the same stacking order.
pub proof fn law_move_needs_capability(
    pre: ManagerState,
    button: Button,
    handle: WindowHandle,
    i: int,
)
    requires
        pre.wf(),
        button_kind(button) == MouseButton::Primary,
        0 <= i < pre.windows.len(),
        pre.windows[i].handle == handle,
        !pre.windows[i].movable,
    ensures
        pre.after_mouse_combo(button, handle) == pre,
        emitted(pre, Event::ButtonCombo { modmask: 0, button, handle }) == Seq::<
            DisplayAction,
        >::empty(),
{
    pre.lemma_index_of(handle, i);
}

/// Pressing a button that is neither the primary nor the secondary one changes
/// nothing, whatever window it is pressed on, and emits no action.
pub proof fn law_unbound_button_changes_nothing(
    pre: ManagerState,
    button: Button,
    handle: WindowHandle,
)
    requires
        button_kind(button) == MouseButton::Unbound,
    ensures
        pre.mouse_command(button, handle).is_none(),
        pre.after_mouse_combo(button, handle) == pre,
        emitted(pre, Event::ButtonCombo { modmask: 0, button, handle }) == Seq::<
            DisplayAction,
        >::empty(),
{
}

/// Destroying the window that the mode names puts the mode back to normal;
/// destroying any other window leaves the mode as it was. Either way the
/// window is no longer in the window list.
pub proof fn law_destroy_ends_drag(pre: ManagerState, handle: WindowHandle)
    requires
        pre.wf(),
    ensures
        !pre.after_destroy(handle).has_window(handle),
        pre.mode.names(handle) ==> pre.after_destroy(handle).mode == Mode::Normal,
        !pre.mode.names(handle) ==> pre.after_destroy(handle).mode == pre.mode,
        pre.has_window(handle) ==> pre.after_destroy(handle).windows.len() + 1
            == pre.windows.len(),
{
    pre.lemma_after_destroy_wf(handle);
}

/// The mode changes only along the legal transitions. From normal it goes to
/// moving or resizing a window only on a button press, and only for a window
/// that is in the list and has the capability. From a drag it stays as it is or
/// returns to normal: never to another drag.
pub proof fn law_mode_transitions_are_legal(pre: ManagerState, event: Event, post: ManagerState)
    requires
        pre.wf(),
        transition(pre, event, post),
    ensures
        pre.mode != Mode::Normal ==> post.mode == pre.mode || post.mode == Mode::Normal,
        pre.mode == Mode::Normal ==> match post.mode {
            Mode::Normal => true,
            Mode::MovingWindow(h) => pre.has_window(h) && pre.windows[pre.index_of(h)].movable
                && emitted(pre, event) == seq![DisplayAction::StartMovingWindow(h)],
            Mode::ResizingWindow(h) => pre.has_window(h) && pre.windows[pre.index_of(
                h,
            )].resizable && emitted(pre, event) == seq![DisplayAction::StartResizingWindow(h)],
        },
{
}

/// Every event appends what it emits to the end of the queue and touches no
/// action that was already pending.
pub proof fn law_event_appends_to_queue(pre: ManagerState, event: Event, post: ManagerState)
    requires
        transition(pre, event, post),
    ensures
        post.actions == pre.actions + emitted(pre, event),
{
    assert(post.actions =~= pre.actions + emitted(pre, event));
}

/// The queue keeps the order of dispatch: after two events, the queue holds
/// what was pending, then what the first event emitted, then what the second
/// emitted.
pub proof fn law_queue_keeps_dispatch_order(
    start: ManagerState,
    first: Event,
    middle: ManagerState,
    second: Event,
    end: ManagerState,
)
    requires
        transition(start, first, middle),
        transition(middle, second, end),
    ensures
        end.actions == start.actions + emitted(start, first) + emitted(middle, second),
        start.actions.len() == 0 ==> end.actions == emitted(start, first) + emitted(
            middle,
            second,
        ),
{
    law_event_appends_to_queue(start, first, middle);
    law_event_appends_to_queue(middle, second, end);
    if start.actions.len() == 0 {
        assert(start.actions + emitted(start, first) =~= emitted(start, first));
    }
}

} // verus!
