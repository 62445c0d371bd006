//! What the window reports between two frames.

use crate::key::{Key, KeyState};
use vstd::prelude::*;

verus! {

/// One event of the window, reduced to what the frame loop acts on.
#[derive(Clone, Copy, Debug, PartialEq, Eq, Structural)]
pub enum Event {
    /// The window was closed.
    Closed,
    /// The window has a new size: its width, then its height.
    Resized(u32, u32),
    /// A key changed its state. The key is `None` where the platform could
    /// not tell which key it was.
    KeyboardInput(KeyState, Option<Key>),
    /// Any other event.
    Other,
}

} // verus!
