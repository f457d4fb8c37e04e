//! In-memory model of a text-mode multi-terminal display: fixed-capacity
//! containers, per-terminal scrollback with a movable viewport, keyboard-driven
//! line editing, and command dispatch. All device access (memory-mapped cell
//! writes, hardware cursor control, port reads) stays outside this crate; the
//! library computes what must be written and callers perform the writes.

use vstd::prelude::*;

pub mod color;
pub mod command;
pub mod cursor;
pub mod data_structure;
pub mod keyboard;
pub mod manager;
pub mod screen;
pub mod shell;

verus! {

/// Number of rows the device can show at once.
pub const VGA_BUFFER_HEIGHT: usize = 25;

/// Number of character cells in one row.
pub const VGA_BUFFER_WIDTH: usize = 80;

/// Rows of scrollback kept per terminal, a fixed multiple of the visible height.
pub const SHELL_BUFFER_HEIGHT: usize = VGA_BUFFER_HEIGHT * 5;

/// Device row on which the editable command line is shown.
pub const VGA_COMMAND_LINE_ROW_INDEX: usize = VGA_BUFFER_HEIGHT - 1;

/// Scrollback row that holds the editable command line.
pub const SHELL_COMMAND_LINE_ROW_INDEX: usize = SHELL_BUFFER_HEIGHT - 1;

/// First visible scrollback row when the viewport sits at the bottom.
pub const VGA_MIN_FIRST_LINE: usize = SHELL_BUFFER_HEIGHT - VGA_BUFFER_HEIGHT;

/// Number of virtual terminals multiplexed onto the one device.
pub const SHELLS_COUNT: usize = 3;

/// Length in bytes of the fixed, uneditable prompt at the start of every
/// command line.
pub const SHELL_PROMPT_LENGTH: usize = 3;

/// The prompt bytes themselves: `"$> "`.
pub open spec fn shell_prompt() -> Seq<u8> {
    seq![36, 62, 32]
}

} // verus!
