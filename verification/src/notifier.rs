//! What the focus notifier puts into the engine's queue.

use vstd::prelude::*;
use vstd::slice::slice_subrange;
use crate::engine::Action;
use crate::text::{lossy_string, lossy_text};

verus! {

/// Window event: the foreground window has changed.
pub const EVENT_SYSTEM_FOREGROUND: u32 = 0x0003;

/// Window event: a window has been restored from its minimized state.
pub const EVENT_SYSTEM_MINIMIZEEND: u32 = 0x0017;

/// Whether a window event of the kind `event` tells of a change of focus.
pub fn is_focus_event(event: u32) -> (focus: bool)
    ensures
        focus == (event == EVENT_SYSTEM_FOREGROUND || event == EVENT_SYSTEM_MINIMIZEEND),
{
    event == EVENT_SYSTEM_FOREGROUND || event == EVENT_SYSTEM_MINIMIZEEND
}

/// The event for a window whose title was read into `buf`, where `n` is the
/// number of bytes that the read reported. A window whose title is empty or
/// could not be read gives no event; any other gives a `Title` with the first
/// `n` bytes as text.
pub fn title_action(buf: &[u8], n: i32) -> (action: Option<Action>)
    requires
        n <= buf@.len(),
    ensures
        n <= 0 ==> action is None,
        n > 0 ==> (action matches Some(Action::Title(title)) && title@ == lossy_text(
            buf@.subrange(0, n as int),
        )),
{
    if n > 0 {
        let text = slice_subrange(buf, 0, n as usize);
        Some(Action::Title(lossy_string(text)))
    } else {
        None
    }
}

} // verus!
