//! The verified core of a small windowed application: which keys are held
//! down, how the window's events change the state of the frame loop, and when
//! that loop ends.

pub mod event;
pub mod frame_loop;
pub mod key;
pub mod keyboard;
pub mod quad;
pub mod window;
