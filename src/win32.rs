//! The decisions of the Win32 backend: how the window procedure answers a
//! message, when the message pump stops, the extended style of a new window,
//! and the client size of a window rectangle.

use vstd::prelude::*;

verus! {

/// The message a window receives as it is destroyed.
pub const WM_DESTROY: u32 = 2;

/// Extended style of a window whose content is not redirected to a bitmap.
pub const WS_EX_NOREDIRECTIONBITMAP: u32 = 0x0020_0000;

/// How the window procedure answers a message.
#[derive(PartialEq, Eq, Structural, Clone, Copy, Debug)]
pub enum MessageAction {
    /// Post the quit message, which ends the message pump.
    PostQuit,
    /// Leave the message to the default window procedure.
    Default,
}

/// The answer to message `msg`: a destroyed window ends the pump; every other
/// message goes to the default procedure.
pub fn message_action(msg: u32) -> (r: MessageAction)
    ensures
        r == (if msg == WM_DESTROY {
            MessageAction::PostQuit
        } else {
            MessageAction::Default
        }),
{
    if msg == WM_DESTROY {
        MessageAction::PostQuit
    } else {
        MessageAction::Default
    }
}

/// Whether the pump goes on after a message fetch returned `fetched`: it
/// stops on the quit message (zero) and on failure (negative).
pub fn keep_pumping(fetched: i32) -> (r: bool)
    ensures
        r == (fetched > 0),
{
    fetched > 0
}

/// The extended style of a new window: no redirection bitmap where it has no
/// content of its own to draw.
pub fn extended_style(nocontent: bool) -> (r: u32)
    ensures
        r == (if nocontent {
            WS_EX_NOREDIRECTIONBITMAP
        } else {
            0
        }),
{
    if nocontent {
        WS_EX_NOREDIRECTIONBITMAP
    } else {
        0
    }
}

/// The width and height of the client rectangle with the given edges.
pub fn client_rect_size(left: i32, top: i32, right: i32, bottom: i32) -> (r: (usize, usize))
    requires
        left <= right,
        top <= bottom,
    ensures
        r.0 == right - left,
        r.1 == bottom - top,
{
    ((right as i64 - left as i64) as usize, (bottom as i64 - top as i64) as usize)
}

} // verus!
