//! Frame-loop core of a small desktop map editor.
//!
//! The crate holds the decisions of the editor's render loop: which
//! presentation parameters a rendering device is created with, what the menu
//! bar and the floating edit window look like in a frame, and how the loop's
//! state moves from one platform event to the next. The menu bar is declared
//! through the immediate-mode UI toolkit from here. Windowing and the graphics
//! device are driven by the program around this library, which performs the
//! actions returned here and reports back what happened.

pub mod device;
pub mod frame_loop;
pub mod menu_pass;
pub mod scale;
pub mod ui;
