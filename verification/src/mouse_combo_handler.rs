//! Mouse button combinations: starting a move or a resize of a window.

use vstd::prelude::*;
use crate::buttons::{Button, ModMask, MouseButton, classify_button};
use crate::manager::{DisplayAction, Manager, ManagerState, Mode};
use crate::window::WindowHandle;

verus! {

/// Handles a button press on a window. Where the press means a command, the
/// window's position is saved as the anchor of the drag, a tiled window
/// becomes floating where it is drawn, the action is queued and the window is
/// raised to the top. The press itself never asks the backend for a refresh.
pub fn process(manager: &mut Manager, modmask: ModMask, button: Button, handle: WindowHandle) -> (refresh:
    bool)
    requires
        old(manager)@.wf(),
    ensures
        final(manager)@ == old(manager)@.after_mouse_combo(button, handle),
        final(manager)@.wf(),
        !refresh,
{
    let act = build_action(manager, modmask, button, handle);
    if let Some(act) = act {
        let ghost entered = manager@;
        match manager.find_window(handle) {
            Some(index) => {
                let mut window = manager.windows.remove(index);
                let _ = window.begin_drag();
                manager.windows.insert(index, window);
                proof {
                    let anchored = entered.windows[index as int].anchored();
                    assert(manager.windows@ =~= entered.windows.update(index as int, anchored));
                    entered.lemma_replaced_wf(index as int, anchored);
                }
            },
            None => {},
        }
        manager.actions.push_back(act);
        manager.move_to_top(&handle);
        proof {
            let i = entered.index_of(handle);
            assert(manager@.windows =~= seq![entered.windows[i].anchored()]
                + entered.windows.remove(i));
        }
    }
    proof {
        old(manager)@.lemma_after_mouse_combo_wf(button, handle);
    }
    false
}

/// Decides what a button press on a window means. Where it means a command,
/// enters the mode of that command and returns the action to queue.
pub fn build_action(
    manager: &mut Manager,
    _mod_mask: ModMask,
    button: Button,
    window: WindowHandle,
) -> (act: Option<DisplayAction>)
    requires
        old(manager)@.wf(),
    ensures
        match old(manager)@.mouse_command(button, window) {
            Some((mode, action)) => act == Some(action) && final(manager)@ == (ManagerState {
                mode,
                ..old(manager)@
            }),
            None => act.is_none() && final(manager)@ == old(manager)@,
        },
        final(manager)@.wf(),
{
    if !manager.mode.is_normal() {
        return None;
    }
    match classify_button(button) {
        MouseButton::Primary => {
            match manager.find_window(window) {
                Some(index) => {
                    if manager.windows[index].can_move() {
                        manager.mode = Mode::MovingWindow(window);
                        Some(DisplayAction::StartMovingWindow(window))
                    } else {
                        None
                    }
                },
                None => None,
            }
        },
        MouseButton::Secondary => {
            match manager.find_window(window) {
                Some(index) => {
                    if manager.windows[index].can_resize() {
                        manager.mode = Mode::ResizingWindow(window);
                        Some(DisplayAction::StartResizingWindow(window))
                    } else {
                        None
                    }
                },
                None => None,
            }
        },
        MouseButton::Unbound => None,
    }
}

} // verus!
