//! Windows: identity, geometry, floating state and capabilities.

use vstd::prelude::*;
use crate::geometry::{Rect, or_zero, unwrap_or_zero};

verus! {

/// The display server's identifier of a window, stable while the window lives.
#[derive(Clone, Copy, Debug, PartialEq, Eq, Hash, Structural)]
pub struct WindowHandle(pub u64);

/// A window as the manager models it.
#[derive(Clone, Debug)]
pub struct Window {
    pub handle: WindowHandle,
    /// The geometry the layout engine assigned.
    pub normal: Rect,
    /// The rectangle of the layout slot the window currently sits in.
    pub container_size: Option<Rect>,
    /// The delta applied on top of the container while floating.
    pub floating_offset: Option<Rect>,
    /// The anchor captured when a drag started.
    pub start_loc: Option<Rect>,
    pub floating: bool,
    pub movable: bool,
    pub resizable: bool,
    /// The name of the tag that hosts the window.
    pub tag: String,
}

impl Window {
    /// A floating window always has its offset computed.
    pub open spec fn offsets_consistent(self) -> bool {
        self.floating ==> self.floating_offset.is_some()
    }

    /// The offset a floating window needs to stay where the layout put it.
    pub open spec fn tiled_offset(self) -> Rect {
        self.normal.minus(or_zero(self.container_size))
    }

    /// A window is well formed when it is consistent and, while it is tiled,
    /// its deviation from its container is representable.
    pub open spec fn wf(self) -> bool {
        &&& self.offsets_consistent()
        &&& !self.floating ==> self.normal.can_subtract(or_zero(self.container_size))
    }

    /// The window after a drag on it has begun: the anchor is captured, and a
    /// tiled window has become floating at the place where it is drawn.
    pub open spec fn anchored(self) -> Window {
        if self.floating {
            Window { start_loc: Some(or_zero(self.floating_offset)), ..self }
        } else {
            Window {
                floating_offset: Some(self.tiled_offset()),
                start_loc: Some(self.tiled_offset()),
                floating: true,
                ..self
            }
        }
    }

    /// The window after its drag has ended: the anchor is gone.
    pub open spec fn released(self) -> Window {
        Window { start_loc: None, ..self }
    }

    /// A new tiled window with no container, no offset and no anchor.
    pub fn new(handle: WindowHandle, normal: Rect, movable: bool, resizable: bool, tag: String) -> (w:
        Window)
        ensures
            w == (Window {
                handle,
                normal,
                container_size: None,
                floating_offset: None,
                start_loc: None,
                floating: false,
                movable,
                resizable,
                tag,
            }),
            w.wf(),
    {
        Window {
            handle,
            normal,
            container_size: None,
            floating_offset: None,
            start_loc: None,
            floating: false,
            movable,
            resizable,
            tag,
        }
    }

    /// Decides whether the window is well formed.
    pub fn is_wf(&self) -> (ok: bool)
        ensures
            ok == self.wf(),
    {
        if self.floating {
            self.floating_offset.is_some()
        } else {
            self.normal.subtractable(unwrap_or_zero(self.container_size))
        }
    }

    pub fn floating(&self) -> (f: bool)
        ensures
            f == self.floating,
    {
        self.floating
    }

    pub fn get_floating_offsets(&self) -> (offset: Option<Rect>)
        ensures
            offset == self.floating_offset,
    {
        self.floating_offset
    }

    pub fn can_move(&self) -> (yes: bool)
        ensures
            yes == self.movable,
    {
        self.movable
    }

    pub fn can_resize(&self) -> (yes: bool)
        ensures
            yes == self.resizable,
    {
        self.resizable
    }

    /// Sets the floating flag and touches nothing else.
    pub fn set_floating(&mut self, value: bool)
        ensures
            *final(self) == (Window { floating: value, ..*old(self) }),
            (!value || old(self).floating_offset.is_some()) ==> final(self).offsets_consistent(),
    {
        self.floating = value;
    }

    /// Replaces the floating offset as given and touches nothing else.
    pub fn set_floating_offsets(&mut self, value: Option<Rect>)
        ensures
            *final(self) == (Window { floating_offset: value, ..*old(self) }),
            (value.is_some() || !old(self).floating) ==> final(self).offsets_consistent(),
    {
        self.floating_offset = value;
    }

    /// Captures the anchor of a drag that begins on this window, and returns
    /// it. A tiled window becomes floating with the offset that keeps it where
    /// it is drawn; a floating window keeps its offset.
    pub fn begin_drag(&mut self) -> (anchor: Rect)
        requires
            old(self).wf(),
        ensures
            *final(self) == old(self).anchored(),
            final(self).wf(),
            final(self).floating,
            final(self).start_loc == Some(anchor),
            final(self).floating_offset == Some(anchor),
            old(self).floating ==> old(self).floating_offset == Some(anchor),
            !old(self).floating ==> final(self).floating_offset == Some(
                old(self).normal.minus(or_zero(old(self).container_size)),
            ),
    {
        if self.floating {
            let offset = unwrap_or_zero(self.floating_offset);
            self.start_loc = Some(offset);
            offset
        } else {
            let container = unwrap_or_zero(self.container_size);
            let offset = self.normal.difference(container);
            self.floating_offset = Some(offset);
            self.start_loc = Some(offset);
            self.floating = true;
            offset
        }
    }

    /// Discards the anchor when the drag ends.
    pub fn end_drag(&mut self)
        ensures
            *final(self) == old(self).released(),
            old(self).wf() ==> final(self).wf(),
    {
        self.start_loc = None;
    }
}

} // verus!
