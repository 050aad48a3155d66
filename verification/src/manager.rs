//! The manager: the single owner of windows, tags, mode and the action queue.

use vstd::prelude::*;
use std::collections::VecDeque;
use crate::autotag::Autotag;
use crate::buttons::{Button, MouseButton, button_kind};
use crate::tag::Tag;
use crate::window::{Window, WindowHandle};

verus! {

/// The interaction the manager is in the middle of.
#[derive(Clone, Copy, Debug, PartialEq, Eq, Structural)]
pub enum Mode {
    Normal,
    MovingWindow(WindowHandle),
    ResizingWindow(WindowHandle),
}

/// One unit of work for the backend.
#[derive(Clone, Copy, Debug, PartialEq, Eq, Structural)]
pub enum DisplayAction {
    StartMovingWindow(WindowHandle),
    StartResizingWindow(WindowHandle),
}

impl Mode {
    /// The window being dragged, if any.
    pub open spec fn subject(self) -> Option<WindowHandle> {
        match self {
            Mode::Normal => None,
            Mode::MovingWindow(h) => Some(h),
            Mode::ResizingWindow(h) => Some(h),
        }
    }

    /// Whether a drag on `handle` is in progress.
    pub open spec fn names(self, handle: WindowHandle) -> bool {
        self.subject() == Some(handle)
    }

    /// Decides whether a drag on `handle` is in progress.
    pub fn is_dragging(&self, handle: WindowHandle) -> (yes: bool)
        ensures
            yes == self.names(handle),
    {
        match self {
            Mode::Normal => false,
            Mode::MovingWindow(h) => h.0 == handle.0,
            Mode::ResizingWindow(h) => h.0 == handle.0,
        }
    }

    /// Decides whether no drag is in progress.
    pub fn is_normal(&self) -> (yes: bool)
        ensures
            yes == (*self == Mode::Normal),
    {
        match self {
            Mode::Normal => true,
            _ => false,
        }
    }
}

impl Default for Mode {
    fn default() -> (mode: Mode)
        ensures
            mode == Mode::Normal,
    {
        Mode::Normal
    }
}

impl DisplayAction {
    /// The window an action is about.
    pub open spec fn target(self) -> WindowHandle {
        match self {
            DisplayAction::StartMovingWindow(h) => h,
            DisplayAction::StartResizingWindow(h) => h,
        }
    }
}

/// The manager's state as mathematics: what contracts and laws speak of.
pub struct ManagerState {
    /// The windows in stacking order, the topmost first.
    pub windows: Seq<Window>,
    pub tags: Seq<Tag>,
    pub autotags: Seq<Autotag>,
    pub active_tag: Seq<char>,
    pub mode: Mode,
    /// The pending actions, the oldest first.
    pub actions: Seq<DisplayAction>,
}

impl ManagerState {
    /// Whether a window with this handle is in the window list.
    pub open spec fn has_window(self, handle: WindowHandle) -> bool {
        exists|i: int| 0 <= i < self.windows.len() && (#[trigger] self.windows[i]).handle == handle
    }

    /// The position of the window with this handle, where there is one.
    pub open spec fn index_of(self, handle: WindowHandle) -> int {
        choose|i: int| 0 <= i < self.windows.len() && (#[trigger] self.windows[i]).handle == handle
    }

    /// No two windows share a handle.
    pub open spec fn handles_unique(self) -> bool {
        forall|i: int, j: int|
            0 <= i < j < self.windows.len() ==> (#[trigger] self.windows[i]).handle != (
            #[trigger] self.windows[j]).handle
    }

    /// The invariant of the manager: every window is well formed, handles are
    /// unique, and a drag in progress is on a window that is still there.
    pub open spec fn wf(self) -> bool {
        &&& forall|i: int| 0 <= i < self.windows.len() ==> (#[trigger] self.windows[i]).wf()
        &&& self.handles_unique()
        &&& match self.mode.subject() {
            Some(h) => self.has_window(h),
            None => true,
        }
    }

    /// What a button press on a window means: the mode to enter and the action
    /// to emit, or nothing. A press counts only while no drag is in progress,
    /// on a window that exists and has the capability the button asks for.
    pub open spec fn mouse_command(self, button: Button, handle: WindowHandle) -> Option<
        (Mode, DisplayAction),
    > {
        if self.mode != Mode::Normal || !self.has_window(handle) {
            None
        } else {
            let w = self.windows[self.index_of(handle)];
            match button_kind(button) {
                MouseButton::Primary => if w.movable {
                    Some((Mode::MovingWindow(handle), DisplayAction::StartMovingWindow(handle)))
                } else {
                    None
                },
                MouseButton::Secondary => if w.resizable {
                    Some((Mode::ResizingWindow(handle), DisplayAction::StartResizingWindow(handle)))
                } else {
                    None
                },
                MouseButton::Unbound => None,
            }
        }
    }

    /// The state with the window at `handle` moved to the top of the stack.
    pub open spec fn raised(self, handle: WindowHandle) -> ManagerState {
        if self.has_window(handle) {
            let i = self.index_of(handle);
            ManagerState { windows: seq![self.windows[i]] + self.windows.remove(i), ..self }
        } else {
            self
        }
    }

    /// The state after a button press on a window. Where the press means a
    /// command, the window's drag anchor is captured, the window is raised,
    /// the mode is entered and the action is appended; else nothing changes.
    pub open spec fn after_mouse_combo(self, button: Button, handle: WindowHandle) -> ManagerState {
        match self.mouse_command(button, handle) {
            None => self,
            Some((mode, action)) => {
                let i = self.index_of(handle);
                ManagerState {
                    windows: seq![self.windows[i].anchored()] + self.windows.remove(i),
                    mode,
                    actions: self.actions.push(action),
                    ..self
                }
            },
        }
    }

    /// The state after a window was destroyed: it leaves the window list, and
    /// a drag on it is over.
    pub open spec fn after_destroy(self, handle: WindowHandle) -> ManagerState {
        if self.has_window(handle) {
            ManagerState {
                windows: self.windows.remove(self.index_of(handle)),
                mode: if self.mode.names(handle) {
                    Mode::Normal
                } else {
                    self.mode
                },
                ..self
            }
        } else {
            self
        }
    }

    /// The state after the backend reported the end of a drag on `handle`:
    /// where that drag was in progress, the mode is normal again and the
    /// window's anchor is gone; else nothing changes.
    pub open spec fn after_drag_end(self, handle: WindowHandle) -> ManagerState {
        if self.mode.names(handle) && self.has_window(handle) {
            let i = self.index_of(handle);
            ManagerState {
                windows: self.windows.update(i, self.windows[i].released()),
                mode: Mode::Normal,
                ..self
            }
        } else {
            self
        }
    }

    /// Under unique handles, the position of a handle is the only place where it stands.
    pub proof fn lemma_index_of(self, handle: WindowHandle, i: int)
        requires
            self.handles_unique(),
            0 <= i < self.windows.len(),
            self.windows[i].handle == handle,
        ensures
            self.has_window(handle),
            self.index_of(handle) == i,
    {
        let k = self.index_of(handle);
        assert(0 <= k < self.windows.len() && self.windows[k].handle == handle);
        if k < i {
            assert(self.windows[k].handle != self.windows[i].handle);
        } else if i < k {
            assert(self.windows[i].handle != self.windows[k].handle);
        }
    }

    /// Putting a well-formed window with the same handle in the place of the
    /// window at `i` keeps the invariant, and the handle stays at `i`.
    pub proof fn lemma_replaced_wf(self, i: int, w: Window)
        requires
            self.wf(),
            0 <= i < self.windows.len(),
            w.wf(),
            w.handle == self.windows[i].handle,
        ensures
            (ManagerState { windows: self.windows.update(i, w), ..self }).wf(),
            (ManagerState { windows: self.windows.update(i, w), ..self }).index_of(w.handle) == i,
    {
        let post = ManagerState { windows: self.windows.update(i, w), ..self };
        let ws = self.windows;
        let ps = post.windows;
        assert forall|k: int| 0 <= k < ps.len() implies (#[trigger] ps[k]).wf() && ps[k].handle
            == ws[k].handle by {
            assert(ws[k].wf());
        }
        assert forall|a: int, b: int| 0 <= a < b < ps.len() implies (#[trigger] ps[a]).handle != (
        #[trigger] ps[b]).handle by {
            assert(ps[a].handle == ws[a].handle);
            assert(ps[b].handle == ws[b].handle);
            assert(ws[a].handle != ws[b].handle);
        }
        match post.mode.subject() {
            Some(h) => {
                let k = self.index_of(h);
                assert(ps[k].handle == h);
            },
            None => {},
        }
        assert(ps[i].handle == w.handle);
        post.lemma_index_of(w.handle, i);
    }

    /// Raising a window keeps the invariant.
    pub proof fn lemma_raised_wf(self, handle: WindowHandle)
        requires
            self.wf(),
        ensures
            self.raised(handle).wf(),
            self.raised(handle).has_window(handle) == self.has_window(handle),
    {
        if self.has_window(handle) {
            let i = self.index_of(handle);
            let post = self.raised(handle);
            self.lemma_rearranged_wf(post, i, self.windows[i]);
        }
    }

    /// Taking the window at `i` out and putting `w`, a well-formed window with
    /// the same handle, on top keeps the windows well formed and the handles
    /// unique, and keeps every handle in the list.
    pub proof fn lemma_rearranged_wf(self, post: ManagerState, i: int, w: Window)
        requires
            self.wf(),
            0 <= i < self.windows.len(),
            w.wf(),
            w.handle == self.windows[i].handle,
            post.windows == seq![w] + self.windows.remove(i),
        ensures
            post.handles_unique(),
            forall|k: int| 0 <= k < post.windows.len() ==> (#[trigger] post.windows[k]).wf(),
            forall|h: WindowHandle| self.has_window(h) ==> post.has_window(h),
            post.has_window(w.handle),
    {
        let ws = self.windows;
        let ps = post.windows;
        assert(ps.len() == ws.len());
        assert(ps[0] == w);
        assert forall|k: int| 1 <= k < ps.len() implies #[trigger] ps[k] == ws[if k <= i {
            k - 1
        } else {
            k
        }] by {}
        assert forall|k: int| 0 <= k < ps.len() implies (#[trigger] ps[k]).wf() by {
            if k >= 1 {
                assert(ps[k] == ws[if k <= i { k - 1 } else { k }]);
            }
        }
        assert forall|a: int, b: int| 0 <= a < b < ps.len() implies (#[trigger] ps[a]).handle != (
        #[trigger] ps[b]).handle by {
            let sb = if b <= i { b - 1 } else { b };
            assert(ps[b] == ws[sb]);
            if a == 0 {
                if sb < i {
                    assert(ws[sb].handle != ws[i].handle);
                } else {
                    assert(ws[i].handle != ws[sb].handle);
                }
            } else {
                let sa = if a <= i { a - 1 } else { a };
                assert(ps[a] == ws[sa]);
                assert(ws[sa].handle != ws[sb].handle);
            }
        }
        assert forall|h: WindowHandle| self.has_window(h) implies post.has_window(h) by {
            let k = self.index_of(h);
            if k == i {
                assert(ps[0].handle == h);
            } else if k < i {
                assert(ps[k + 1] == ws[k]);
                assert(ps[k + 1].handle == h);
            } else {
                assert(ps[k] == ws[k]);
                assert(ps[k].handle == h);
            }
        }
        assert(ps[0].handle == w.handle);
    }

    /// A button press keeps the invariant.
    pub proof fn lemma_after_mouse_combo_wf(self, button: Button, handle: WindowHandle)
        requires
            self.wf(),
        ensures
            self.after_mouse_combo(button, handle).wf(),
    {
        if self.mouse_command(button, handle).is_some() {
            let i = self.index_of(handle);
            let post = self.after_mouse_combo(button, handle);
            self.lemma_rearranged_wf(post, i, self.windows[i].anchored());
            assert(post.mode.subject() == Some(handle));
        }
    }

    /// Destroying a window keeps the invariant, and the window is gone.
    pub proof fn lemma_after_destroy_wf(self, handle: WindowHandle)
        requires
            self.wf(),
        ensures
            self.after_destroy(handle).wf(),
            !self.after_destroy(handle).has_window(handle),
    {
        let post = self.after_destroy(handle);
        if self.has_window(handle) {
            let i = self.index_of(handle);
            let ws = self.windows;
            let ps = post.windows;
            assert forall|k: int| 0 <= k < ps.len() implies #[trigger] ps[k] == ws[if k < i {
                k
            } else {
                k + 1
            }] by {}
            assert forall|k: int| 0 <= k < ps.len() implies (#[trigger] ps[k]).wf() by {
                assert(ps[k] == ws[if k < i { k } else { k + 1 }]);
            }
            assert forall|a: int, b: int| 0 <= a < b < ps.len() implies (#[trigger] ps[a]).handle
                != (#[trigger] ps[b]).handle by {
                let sa = if a < i { a } else { a + 1 };
                let sb = if b < i { b } else { b + 1 };
                assert(ps[a] == ws[sa]);
                assert(ps[b] == ws[sb]);
                assert(ws[sa].handle != ws[sb].handle);
            }
            assert forall|k: int| 0 <= k < ps.len() implies (#[trigger] ps[k]).handle
                != handle by {
                let sk = if k < i { k } else { k + 1 };
                assert(ps[k] == ws[sk]);
                if sk < i {
                    assert(ws[sk].handle != ws[i].handle);
                } else {
                    assert(ws[i].handle != ws[sk].handle);
                }
            }
            match post.mode.subject() {
                Some(h) => {
                    assert(self.mode.subject() == Some(h) && h != handle);
                    let k = self.index_of(h);
                    assert(k != i);
                    if k < i {
                        assert(ps[k] == ws[k]);
                        assert(ps[k].handle == h);
                    } else {
                        assert(ps[k - 1] == ws[k]);
                        assert(ps[k - 1].handle == h);
                    }
                },
                None => {},
            }
        }
    }

    /// The end of a drag keeps the invariant.
    pub proof fn lemma_after_drag_end_wf(self, handle: WindowHandle)
        requires
            self.wf(),
        ensures
            self.after_drag_end(handle).wf(),
    {
        if self.mode.names(handle) && self.has_window(handle) {
            let i = self.index_of(handle);
            self.lemma_replaced_wf(i, self.windows[i].released());
        }
    }
}

/// The manager: the windows in stacking order (the topmost first), the tags,
/// the autotag rules, the active tag, the mode and the pending actions.
pub struct Manager {
    pub windows: Vec<Window>,
    pub tags: Vec<Tag>,
    pub autotags: Vec<Autotag>,
    pub active_tag: String,
    pub mode: Mode,
    pub actions: VecDeque<DisplayAction>,
}

impl View for Manager {
    type V = ManagerState;

    open spec fn view(&self) -> ManagerState {
        ManagerState {
            windows: self.windows@,
            tags: self.tags@,
            autotags: self.autotags@,
            active_tag: self.active_tag@,
            mode: self.mode,
            actions: self.actions@,
        }
    }
}

impl Manager {
    /// A manager with no windows and no pending actions, in normal mode.
    pub fn new(tags: Vec<Tag>, autotags: Vec<Autotag>, active_tag: String) -> (m: Manager)
        ensures
            m@ == (ManagerState {
                windows: Seq::empty(),
                tags: tags@,
                autotags: autotags@,
                active_tag: active_tag@,
                mode: Mode::Normal,
                actions: Seq::empty(),
            }),
            m@.wf(),
    {
        Manager {
            windows: Vec::new(),
            tags,
            autotags,
            active_tag,
            mode: Mode::Normal,
            actions: VecDeque::new(),
        }
    }

    /// Replaces the tag list and the autotag rules in bulk. Windows keep the
    /// tags they are on.
    pub fn reload_config(&mut self, tags: Vec<Tag>, autotags: Vec<Autotag>)
        ensures
            final(self)@ == (ManagerState { tags: tags@, autotags: autotags@, ..old(self)@ }),
            old(self)@.wf() ==> final(self)@.wf(),
    {
        self.tags = tags;
        self.autotags = autotags;
        proof {
            if old(self)@.wf() {
                match self@.mode.subject() {
                    Some(h) => {
                        let k = old(self)@.index_of(h);
                        assert(self@.windows[k].handle == h);
                    },
                    None => {},
                }
            }
        }
    }

    /// Looks a window up by its handle.
    pub fn find_window(&self, handle: WindowHandle) -> (found: Option<usize>)
        ensures
            found.is_some() == self@.has_window(handle),
            found matches Some(i) ==> i < self.windows.len() && self.windows@[i as int].handle
                == handle,
            found matches Some(i) ==> self@.handles_unique() ==> self@.index_of(handle) == i,
    {
        let mut i: usize = 0;
        while i < self.windows.len()
            invariant
                i <= self.windows.len(),
                forall|j: int| 0 <= j < i ==> (#[trigger] self.windows@[j]).handle != handle,
            decreases self.windows.len() - i,
        {
            if self.windows[i].handle.0 == handle.0 {
                proof {
                    if self@.handles_unique() {
                        self@.lemma_index_of(handle, i as int);
                    }
                }
                return Some(i);
            }
            i += 1;
        }
        None
    }

    /// Decides whether the manager's invariant holds of this state.
    pub fn holds_invariant(&self) -> (ok: bool)
        ensures
            ok == self@.wf(),
    {
        let n = self.windows.len();
        let mut i: usize = 0;
        while i < n
            invariant
                i <= n,
                n == self.windows.len(),
                forall|k: int| 0 <= k < i ==> (#[trigger] self.windows@[k]).wf(),
                forall|a: int, b: int|
                    0 <= a < b < i ==> (#[trigger] self.windows@[a]).handle != (
                    #[trigger] self.windows@[b]).handle,
            decreases n - i,
        {
            if !self.windows[i].is_wf() {
                assert(!self@.windows[i as int].wf());
                return false;
            }
            let mut j: usize = 0;
            while j < i
                invariant
                    j <= i < n,
                    n == self.windows.len(),
                    forall|a: int|
                        0 <= a < j ==> (#[trigger] self.windows@[a]).handle
                            != self.windows@[i as int].handle,
                decreases i - j,
            {
                if self.windows[j].handle.0 == self.windows[i].handle.0 {
                    assert(self@.windows[j as int].handle == self@.windows[i as int].handle);
                    return false;
                }
                j += 1;
            }
            i += 1;
        }
        match self.mode {
            Mode::Normal => true,
            Mode::MovingWindow(handle) => self.find_window(handle).is_some(),
            Mode::ResizingWindow(handle) => self.find_window(handle).is_some(),
        }
    }

    /// Raises a window to the top of the stack. Says whether it was there.
    pub fn move_to_top(&mut self, handle: &WindowHandle) -> (moved: Option<()>)
        requires
            old(self)@.wf(),
        ensures
            final(self)@ == old(self)@.raised(*handle),
            final(self)@.wf(),
            moved.is_some() == old(self)@.has_window(*handle),
    {
        match self.find_window(*handle) {
            Some(index) => {
                let window = self.windows.remove(index);
                self.windows.insert(0, window);
                proof {
                    assert(self.windows@ =~= seq![old(self).windows@[index as int]] + old(
                        self,
                    ).windows@.remove(index as int));
                    old(self)@.lemma_raised_wf(*handle);
                }
                Some(())
            },
            None => None,
        }
    }

    /// Hands the pending actions out, the oldest first, and leaves the queue empty.
    pub fn drain_actions(&mut self) -> (drained: Vec<DisplayAction>)
        ensures
            drained@ == old(self)@.actions,
            final(self)@ == (ManagerState { actions: Seq::empty(), ..old(self)@ }),
    {
        let mut drained: Vec<DisplayAction> = Vec::new();
        while self.actions.len() > 0
            invariant
                drained@ + self.actions@ == old(self).actions@,
                self.windows == old(self).windows,
                self.tags == old(self).tags,
                self.autotags == old(self).autotags,
                self.active_tag == old(self).active_tag,
                self.mode == old(self).mode,
            decreases self.actions@.len(),
        {
            let ghost before = self.actions@;
            let ghost taken = drained@;
            match self.actions.pop_front() {
                Some(action) => {
                    drained.push(action);
                    assert(drained@ + self.actions@ =~= taken + before);
                },
                None => {},
            }
        }
        assert(drained@ =~= drained@ + self.actions@);
        assert(self.actions@ =~= Seq::empty());
        drained
    }
}

} // verus!
