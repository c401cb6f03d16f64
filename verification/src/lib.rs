//! Cursor relocation between display monitors.
//!
//! The library decides where the mouse cursor has to go: to the centre of a
//! monitor that is named, or to the centre of the monitor that touches the
//! current one in a cardinal direction. It works on a snapshot of the display
//! layout and on the cursor's position, both handed in as plain values, and
//! answers with the target point or with the reason why there is none.

pub mod error;
pub mod geometry;
pub mod monitor;
pub mod request;
pub mod scan;
