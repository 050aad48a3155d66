//! The life of a window: creation, destruction, and the end of a drag.

use vstd::prelude::*;
use crate::autotag::{assigned_tag, autotag_for};
use crate::geometry::Rect;
use crate::manager::{Manager, ManagerState, Mode};
use crate::window::{Window, WindowHandle};

verus! {

/// What holds of the state `post` after the backend reported a new window to
/// the state `pre`. A handle that is already known changes nothing. Else the
/// new window stands last in the list: tiled, with the geometry and the
/// capabilities reported, on the tag its program's rules give it or else on
/// the active tag.
pub open spec fn created(
    pre: ManagerState,
    post: ManagerState,
    handle: WindowHandle,
    program: Seq<char>,
    geometry: Rect,
    can_move: bool,
    can_resize: bool,
) -> bool {
    if pre.has_window(handle) {
        post == pre
    } else {
        let w = post.windows.last();
        &&& post.windows.len() == pre.windows.len() + 1
        &&& post.windows.drop_last() == pre.windows
        &&& w.handle == handle
        &&& w.normal == geometry
        &&& w.container_size.is_none()
        &&& w.floating_offset.is_none()
        &&& w.start_loc.is_none()
        &&& !w.floating
        &&& w.movable == can_move
        &&& w.resizable == can_resize
        &&& w.tag@ == assigned_tag(pre.autotags, program, pre.active_tag)
        &&& post.tags == pre.tags
        &&& post.autotags == pre.autotags
        &&& post.active_tag == pre.active_tag
        &&& post.mode == pre.mode
        &&& post.actions == pre.actions
    }
}

/// A new window keeps the invariant.
pub proof fn lemma_created_wf(
    pre: ManagerState,
    post: ManagerState,
    handle: WindowHandle,
    program: Seq<char>,
    geometry: Rect,
    can_move: bool,
    can_resize: bool,
)
    requires
        pre.wf(),
        created(pre, post, handle, program, geometry, can_move, can_resize),
    ensures
        post.wf(),
{
    if !pre.has_window(handle) {
        let ws = pre.windows;
        let ps = post.windows;
        assert forall|k: int| 0 <= k < ws.len() implies ws[k] == #[trigger] ps[k] by {
            assert(ps.drop_last()[k] == ps[k]);
        }
        assert(ps[ps.len() - 1] == ps.last());
        assert forall|k: int| 0 <= k < ps.len() implies (#[trigger] ps[k]).wf() by {
            if k < ws.len() {
                assert(ws[k].wf());
            }
        }
        assert forall|a: int, b: int| 0 <= a < b < ps.len() implies (#[trigger] ps[a]).handle != (
        #[trigger] ps[b]).handle by {
            if b < ws.len() {
                assert(ws[a].handle != ws[b].handle);
            } else {
                assert(ws[a].handle != handle);
            }
        }
        match post.mode.subject() {
            Some(h) => {
                let k = pre.index_of(h);
                assert(ps[k].handle == h);
            },
            None => {},
        }
    }
}

/// Handles the backend's report of a new window. The window's tag is decided
/// here, once, before it enters the window list. Asks for a refresh exactly
/// when the window was added.
pub fn window_created(
    manager: &mut Manager,
    handle: WindowHandle,
    program: &String,
    geometry: Rect,
    can_move: bool,
    can_resize: bool,
) -> (refresh: bool)
    requires
        old(manager)@.wf(),
    ensures
        created(old(manager)@, final(manager)@, handle, program@, geometry, can_move, can_resize),
        final(manager)@.wf(),
        refresh == !old(manager)@.has_window(handle),
{
    if manager.find_window(handle).is_some() {
        return false;
    }
    let tag = match autotag_for(program, &manager.autotags) {
        Some(tag) => tag,
        None => manager.active_tag.clone(),
    };
    let window = Window::new(handle, geometry, can_move, can_resize, tag);
    manager.windows.push(window);
    proof {
        assert(manager@.windows.drop_last() =~= old(manager)@.windows);
        lemma_created_wf(
            old(manager)@,
            manager@,
            handle,
            program@,
            geometry,
            can_move,
            can_resize,
        );
    }
    true
}

/// Handles the backend's report that a window is gone. The window leaves the
/// window list; a drag on it is over. Asks for a refresh exactly when a window
/// was removed.
pub fn window_destroyed(manager: &mut Manager, handle: WindowHandle) -> (refresh: bool)
    requires
        old(manager)@.wf(),
    ensures
        final(manager)@ == old(manager)@.after_destroy(handle),
        final(manager)@.wf(),
        refresh == old(manager)@.has_window(handle),
{
    proof {
        old(manager)@.lemma_after_destroy_wf(handle);
    }
    match manager.find_window(handle) {
        Some(index) => {
            let _ = manager.windows.remove(index);
            if manager.mode.is_dragging(handle) {
                manager.mode = Mode::Normal;
            }
            true
        },
        None => false,
    }
}

/// Handles the backend's report that the drag on a window has ended. Where
/// that drag was in progress, the mode is normal again and the window's anchor
/// is discarded. Asks for a refresh exactly when a drag ended.
pub fn drag_ended(manager: &mut Manager, handle: WindowHandle) -> (refresh: bool)
    requires
        old(manager)@.wf(),
    ensures
        final(manager)@ == old(manager)@.after_drag_end(handle),
        final(manager)@.wf(),
        refresh == old(manager)@.mode.names(handle),
{
    proof {
        old(manager)@.lemma_after_drag_end_wf(handle);
    }
    if !manager.mode.is_dragging(handle) {
        return false;
    }
    match manager.find_window(handle) {
        Some(index) => {
            let mut window = manager.windows.remove(index);
            window.end_drag();
            manager.windows.insert(index, window);
            assert(manager.windows@ =~= old(manager)@.windows.update(
                index as int,
                old(manager)@.windows[index as int].released(),
            ));
        },
        None => {},
    }
    manager.mode = Mode::Normal;
    true
}

} // verus!
