//! Physical pointer buttons and modifier masks as the display server reports them.

use vstd::prelude::*;

verus! {

/// A pointer button as the display server numbers it.
pub type Button = u32;

/// A bit mask of the modifier keys held during an input event.
pub type ModMask = u32;

/// What a pointer button means to the manager.
#[derive(Clone, Copy, Debug, PartialEq, Eq, Structural)]
pub enum MouseButton {
    /// The primary button: starts a move.
    Primary,
    /// The secondary button: starts a resize.
    Secondary,
    /// Any other button: nothing is bound to it.
    Unbound,
}

/// The meaning of each button code: 1 is the primary button, 3 the secondary.
pub open spec fn button_kind(button: Button) -> MouseButton {
    if button == 1 {
        MouseButton::Primary
    } else if button == 3 {
        MouseButton::Secondary
    } else {
        MouseButton::Unbound
    }
}

/// Trusted: the constant `x11_dl::xlib::Button1`, the display server's code for
/// the first pointer button. Its definition gives it the value 1.
#[verifier::external_body]
fn primary_button_code() -> (code: Button)
    ensures
        code == 1,
{
    x11_dl::xlib::Button1
}

/// Trusted: the constant `x11_dl::xlib::Button3`, the display server's code for
/// the third pointer button. Its definition gives it the value 3.
#[verifier::external_body]
fn secondary_button_code() -> (code: Button)
    ensures
        code == 3,
{
    x11_dl::xlib::Button3
}

/// Decides which interaction a physical button stands for.
pub fn classify_button(button: Button) -> (kind: MouseButton)
    ensures
        kind == button_kind(button),
{
    if button == primary_button_code() {
        MouseButton::Primary
    } else if button == secondary_button_code() {
        MouseButton::Secondary
    } else {
        MouseButton::Unbound
    }
}

} // verus!
