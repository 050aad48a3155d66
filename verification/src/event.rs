//! Events from the backend and their dispatch to the handlers.

use vstd::prelude::*;
use crate::buttons::{Button, ModMask};
use crate::geometry::Rect;
use crate::manager::{DisplayAction, Manager, ManagerState};
use crate::mouse_combo_handler::process;
use crate::window::WindowHandle;
use crate::window_handler::{created, drag_ended, window_created, window_destroyed};

verus! {

/// One event from the backend.
#[derive(Clone, Debug)]
pub enum Event {
    /// A window was mapped.
    WindowCreated {
        handle: WindowHandle,
        program: String,
        geometry: Rect,
        can_move: bool,
        can_resize: bool,
    },
    /// A window was unmapped or destroyed.
    WindowDestroyed(WindowHandle),
    /// A button was pressed on a window while modifiers were held.
    ButtonCombo { modmask: ModMask, button: Button, handle: WindowHandle },
    /// The drag on a window was released.
    DragEnded(WindowHandle),
}

/// Whether handling `event` in state `pre` may leave the manager in state `post`.
pub open spec fn transition(pre: ManagerState, event: Event, post: ManagerState) -> bool {
    match event {
        Event::WindowCreated { handle, program, geometry, can_move, can_resize } => created(
            pre,
            post,
            handle,
            program@,
            geometry,
            can_move,
            can_resize,
        ),
        Event::WindowDestroyed(handle) => post == pre.after_destroy(handle),
        Event::ButtonCombo { modmask, button, handle } => post == pre.after_mouse_combo(
            button,
            handle,
        ),
        Event::DragEnded(handle) => post == pre.after_drag_end(handle),
    }
}

/// The actions that handling `event` in state `pre` appends to the queue.
pub open spec fn emitted(pre: ManagerState, event: Event) -> Seq<DisplayAction> {
    match event {
        Event::ButtonCombo { modmask, button, handle } => match pre.mouse_command(button, handle) {
            Some((mode, action)) => seq![action],
            None => Seq::empty(),
        },
        _ => Seq::empty(),
    }
}

/// Whether handling `event` in state `pre` asks the backend for a refresh.
pub open spec fn needs_refresh(pre: ManagerState, event: Event) -> bool {
    match event {
        Event::WindowCreated { handle, program, geometry, can_move, can_resize } => !pre.has_window(
            handle,
        ),
        Event::WindowDestroyed(handle) => pre.has_window(handle),
        Event::ButtonCombo { modmask, button, handle } => false,
        Event::DragEnded(handle) => pre.mode.names(handle),
    }
}

/// Handles one event: hands it to its handler and reports whether the backend
/// should refresh.
pub fn dispatch(manager: &mut Manager, event: Event) -> (refresh: bool)
    requires
        old(manager)@.wf(),
    ensures
        transition(old(manager)@, event, final(manager)@),
        final(manager)@.wf(),
        final(manager)@.actions == old(manager)@.actions + emitted(old(manager)@, event),
        refresh == needs_refresh(old(manager)@, event),
{
    proof {
        assert(old(manager)@.actions + Seq::<DisplayAction>::empty() =~= old(manager)@.actions);
    }
    match event {
        Event::WindowCreated { handle, program, geometry, can_move, can_resize } => {
            window_created(manager, handle, &program, geometry, can_move, can_resize)
        },
        Event::WindowDestroyed(handle) => window_destroyed(manager, handle),
        Event::ButtonCombo { modmask, button, handle } => {
            let refresh = process(manager, modmask, button, handle);
            proof {
                match old(manager)@.mouse_command(button, handle) {
                    Some((mode, action)) => {
                        assert(old(manager)@.actions.push(action) =~= old(manager)@.actions
                            + seq![action]);
                    },
                    None => {},
                }
            }
            refresh
        },
        Event::DragEnded(handle) => drag_ended(manager, handle),
    }
}

} // verus!
