//! One virtual terminal as shown on the device: a [`Shell`] text model plus
//! the viewport into its scrollback (which row is shown first, and whether
//! the user has scrolled away from the live line), and the terminal's color.
//!
//! Scrolling mode hides the hardware cursor; since the device is not touched
//! from here, `enable_scrolling` and `disable_scrolling` report whether the
//! mode toggled so the caller can drive the cursor hardware.

use crate::color::ColorCode;
use crate::command::Command;
use crate::data_structure::StackVec;
use crate::keyboard::NavigationKey;
use crate::shell::{
    backspace_effect, command_line_effect, fresh_rows, move_cursor_effect, write_byte_effect,
    Shell,
};
use crate::{
    shell_prompt, SHELL_BUFFER_HEIGHT, SHELL_PROMPT_LENGTH, VGA_BUFFER_HEIGHT,
    VGA_BUFFER_WIDTH, VGA_COMMAND_LINE_ROW_INDEX, VGA_MIN_FIRST_LINE,
};
use vstd::prelude::*;

verus! {

#[derive(Debug, Clone, Copy)]
pub struct VgaScreen {
    pub(crate) current_buffer_first_line: usize,
    pub(crate) is_scrolling_mode_enabled: bool,
    pub(crate) shell: Shell,
    pub(crate) color: ColorCode,
}

impl VgaScreen {
    /// The scrollback row shown on the device's first row.
    pub closed spec fn first_visible(self) -> nat {
        self.current_buffer_first_line as nat
    }

    /// Whether the user has scrolled away from the live line.
    pub closed spec fn scrolling_enabled(self) -> bool {
        self.is_scrolling_mode_enabled
    }

    /// The terminal's text model.
    pub closed spec fn shell_state(self) -> Shell {
        self.shell
    }

    /// The terminal's color attribute.
    pub closed spec fn color_code(self) -> ColorCode {
        self.color
    }

    /// The text model is well formed and the viewport fits the scrollback.
    pub closed spec fn well_formed(self) -> bool {
        &&& self.shell.well_formed()
        &&& self.current_buffer_first_line <= VGA_MIN_FIRST_LINE
    }

    /// Scrolling mode is enabled exactly when the viewport sits above the
    /// bottom of the scrollback.
    pub open spec fn viewport_ok(self) -> bool {
        self.scrolling_enabled() <==> self.first_visible() < VGA_MIN_FIRST_LINE
    }

    /// Viewport bound: `new` establishes `viewport_ok`, every scroll
    /// operation's contract preserves it, and under it the first visible row
    /// stays within `[0, VGA_MIN_FIRST_LINE]` while scrolling mode is
    /// enabled exactly when the viewport sits above the bottom.
    pub proof fn lemma_viewport_bound(self)
        requires
            self.well_formed(),
            self.viewport_ok(),
        ensures
            0 <= self.first_visible() <= VGA_MIN_FIRST_LINE,
            self.scrolling_enabled() <==> self.first_visible() < VGA_MIN_FIRST_LINE,
    {
    }

    /// What well-formedness guarantees about the parts, for callers that
    /// cannot see inside it.
    pub proof fn lemma_well_formed_parts(self)
        requires
            self.well_formed(),
        ensures
            self.shell_state().well_formed(),
            self.first_visible() + VGA_BUFFER_HEIGHT <= SHELL_BUFFER_HEIGHT,
    {
    }

    /// The byte shown at visible position `(y, x)`: the scrollback byte when
    /// that row holds one there, a blank otherwise.
    pub open spec fn visible_byte(self, y: int, x: int) -> u8 {
        let row = self.shell_state().rows()[self.first_visible() + y];
        if x < row.len() {
            row[x]
        } else {
            32
        }
    }

    pub fn new(color: ColorCode) -> (s: Self)
        ensures
            s.well_formed(),
            s.viewport_ok(),
            s.first_visible() == VGA_MIN_FIRST_LINE,
            !s.scrolling_enabled(),
            s.color_code() == color,
            s.shell_state().prompt_ready(),
            s.shell_state().cursor_col() == SHELL_PROMPT_LENGTH,
            s.shell_state().live_row() == shell_prompt(),
            s.shell_state().rows() == fresh_rows(),
    {
        Self {
            shell: Shell::new(),
            current_buffer_first_line: VGA_MIN_FIRST_LINE,
            is_scrolling_mode_enabled: false,
            color,
        }
    }

    /// The terminal's color attribute.
    pub fn color(&self) -> (c: ColorCode)
        ensures
            c == self.color_code(),
    {
        self.color
    }

    /// Whether scrolling mode is on right now.
    pub fn is_scrolling(&self) -> (b: bool)
        ensures
            b == self.scrolling_enabled(),
    {
        self.is_scrolling_mode_enabled
    }

    /// The scrollback row currently shown first.
    pub fn first_line(&self) -> (r: usize)
        ensures
            r == self.first_visible(),
    {
        self.current_buffer_first_line
    }

    /// The visible window: the `VGA_BUFFER_HEIGHT` scrollback rows starting
    /// at the first visible one.
    pub fn get_data(&self) -> (r: &[StackVec<u8, VGA_BUFFER_WIDTH>])
        requires
            self.well_formed(),
        ensures
            r@.len() == VGA_BUFFER_HEIGHT,
            forall|y: int|
                0 <= y < VGA_BUFFER_HEIGHT ==> (#[trigger] r@[y])@ == self.shell_state().rows()[
                    self.first_visible() + y] && r@[y].well_formed() && r@[y].fill_value() == 32u8,
    {
        let first = self.current_buffer_first_line;
        let store = self.shell.get_data();
        proof {
            store.lemma_raw_is_padded_content();
        }
        let r = store.slice(first..first + VGA_BUFFER_HEIGHT);
        proof {
            assert forall|y: int| 0 <= y < VGA_BUFFER_HEIGHT implies (#[trigger] r@[y])@
                == self.shell_state().rows()[self.first_visible() + y] && r@[y].well_formed()
                && r@[y].fill_value() == 32u8 by {
                assert(r@[y] == store@[first + y]);
            }
        }
        r
    }

    /// Where the hardware cursor belongs: hidden while scrolling, otherwise
    /// at the editing cursor's column on the device's command-line row.
    pub fn render_cursor(&self) -> (r: Option<(usize, usize)>)
        ensures
            self.scrolling_enabled() ==> r is None,
            !self.scrolling_enabled() ==> r is Some && r.unwrap().0
                == self.shell_state().cursor_col() && r.unwrap().1 == VGA_COMMAND_LINE_ROW_INDEX,
    {
        if !self.is_scrolling_mode_enabled {
            Some((self.shell.cursor_position(), VGA_COMMAND_LINE_ROW_INDEX))
        } else {
            None
        }
    }

    /// The cursor as a screen coordinate: its column, on the device's
    /// command-line row.
    pub fn get_cursor(&self) -> (c: crate::cursor::Cursor)
        ensures
            c.x == self.shell_state().cursor_col(),
            c.y == VGA_COMMAND_LINE_ROW_INDEX,
    {
        crate::cursor::Cursor { x: self.shell.cursor_position(), y: VGA_COMMAND_LINE_ROW_INDEX }
    }

    /// Turns scrolling mode on; reports whether it toggled, so the caller
    /// can hide the hardware cursor.
    pub fn enable_scrolling(&mut self) -> (toggled: bool)
        ensures
            final(self).scrolling_enabled(),
            final(self).first_visible() == old(self).first_visible(),
            final(self).shell_state() == old(self).shell_state(),
            final(self).color_code() == old(self).color_code(),
            final(self).well_formed() == old(self).well_formed(),
            toggled == !old(self).scrolling_enabled(),
    {
        if !self.is_scrolling_mode_enabled {
            self.is_scrolling_mode_enabled = true;
            true
        } else {
            false
        }
    }

    /// Turns scrolling mode off; reports whether it toggled, so the caller
    /// can show the hardware cursor again.
    pub fn disable_scrolling(&mut self) -> (toggled: bool)
        ensures
            !final(self).scrolling_enabled(),
            final(self).first_visible() == old(self).first_visible(),
            final(self).shell_state() == old(self).shell_state(),
            final(self).color_code() == old(self).color_code(),
            final(self).well_formed() == old(self).well_formed(),
            toggled == old(self).scrolling_enabled(),
    {
        if self.is_scrolling_mode_enabled {
            self.is_scrolling_mode_enabled = false;
            true
        } else {
            false
        }
    }

    /// Moves the viewport one row towards older history, entering scrolling
    /// mode; at the top it does nothing. Reports whether anything moved.
    pub fn scroll_up(&mut self) -> (moved: bool)
        requires
            old(self).well_formed(),
            old(self).viewport_ok(),
        ensures
            final(self).well_formed(),
            final(self).viewport_ok(),
            final(self).shell_state() == old(self).shell_state(),
            final(self).color_code() == old(self).color_code(),
            moved == (old(self).first_visible() > 0),
            moved ==> final(self).first_visible() == old(self).first_visible() - 1 && final(self).scrolling_enabled(),
            !moved ==> *final(self) == *old(self),
    {
        if self.current_buffer_first_line > 0 {
            self.current_buffer_first_line = self.current_buffer_first_line - 1;
            let _ = self.enable_scrolling();
            true
        } else {
            false
        }
    }

    /// Moves the viewport one row towards the live line, leaving scrolling
    /// mode exactly when the bottom is reached; at the bottom it does
    /// nothing. Reports whether anything moved.
    pub fn scroll_down(&mut self) -> (moved: bool)
        requires
            old(self).well_formed(),
            old(self).viewport_ok(),
        ensures
            final(self).well_formed(),
            final(self).viewport_ok(),
            final(self).shell_state() == old(self).shell_state(),
            final(self).color_code() == old(self).color_code(),
            moved == (old(self).first_visible() < VGA_MIN_FIRST_LINE),
            moved ==> final(self).first_visible() == old(self).first_visible() + 1,
            !moved ==> *final(self) == *old(self),
    {
        if self.current_buffer_first_line < VGA_MIN_FIRST_LINE {
            self.current_buffer_first_line = self.current_buffer_first_line + 1;
            if self.current_buffer_first_line == VGA_MIN_FIRST_LINE {
                let _ = self.disable_scrolling();
            }
            true
        } else {
            false
        }
    }

    /// Snaps the viewport back to the live line and leaves scrolling mode:
    /// any new output or typed input returns the user to the bottom.
    pub fn reset_scroll(&mut self)
        requires
            old(self).well_formed(),
            old(self).viewport_ok(),
        ensures
            final(self).well_formed(),
            final(self).viewport_ok(),
            final(self).first_visible() == VGA_MIN_FIRST_LINE,
            !final(self).scrolling_enabled(),
            final(self).shell_state() == old(self).shell_state(),
            final(self).color_code() == old(self).color_code(),
    {
        if self.is_scrolling_mode_enabled {
            self.current_buffer_first_line = VGA_MIN_FIRST_LINE;
            let _ = self.disable_scrolling();
        }
    }

    /// Stores one byte through the text model; the viewport is not touched.
    pub fn write_byte(&mut self, byte: u8)
        requires
            old(self).well_formed(),
        ensures
            final(self).well_formed(),
            write_byte_effect(old(self).shell_state(), final(self).shell_state(), byte),
            old(self).shell_state().prompt_ready() && byte != 10 ==> final(self).shell_state().prompt_ready(),
            final(self).first_visible() == old(self).first_visible(),
            final(self).scrolling_enabled() == old(self).scrolling_enabled(),
            final(self).color_code() == old(self).color_code(),
    {
        self.shell.write_byte(byte);
    }

    /// Routes one byte of command-line input: typing returns the viewport to
    /// the live line first, then the byte reaches the text model as in
    /// [`Shell::write_byte_to_the_command_line`].
    pub fn write_byte_to_the_command_line(&mut self, byte: u8) -> (pending: Option<Command>)
        requires
            old(self).well_formed(),
            old(self).viewport_ok(),
        ensures
            final(self).well_formed(),
            final(self).viewport_ok(),
            final(self).first_visible() == VGA_MIN_FIRST_LINE,
            !final(self).scrolling_enabled(),
            final(self).color_code() == old(self).color_code(),
            command_line_effect(
                old(self).shell_state(),
                final(self).shell_state(),
                byte,
                pending,
            ),
    {
        self.reset_scroll();
        self.shell.write_byte_to_the_command_line(byte)
    }

    /// Removes the byte before the cursor as
    /// [`Shell::handle_backspace`] does; the viewport is not touched.
    pub fn handle_backspace(&mut self) -> (r: Option<
        (&StackVec<u8, VGA_BUFFER_WIDTH>, usize, usize),
    >)
        requires
            old(self).well_formed(),
        ensures
            final(self).well_formed(),
            backspace_effect(old(self).shell_state(), final(self).shell_state()),
            r is Some <==> old(self).shell_state().cursor_col() > SHELL_PROMPT_LENGTH && old(self).shell_state().cursor_col() - 1 < old(self).shell_state().live_row().len(),
            r is Some ==> {
                let (row, start, end) = r.unwrap();
                &&& row@ == final(self).shell_state().live_row()
                &&& row.well_formed()
                &&& row.fill_value() == 32u8
                &&& start == old(self).shell_state().cursor_col() - 1
                &&& end == old(self).shell_state().live_row().len()
            },
            old(self).shell_state().prompt_ready() ==> final(self).shell_state().prompt_ready(),
            final(self).first_visible() == old(self).first_visible(),
            final(self).scrolling_enabled() == old(self).scrolling_enabled(),
            final(self).color_code() == old(self).color_code(),
    {
        self.shell.handle_backspace()
    }

    /// Moves the editing cursor as [`Shell::move_cursor`] does; the viewport
    /// is not touched.
    pub fn move_cursor(&mut self, nav: NavigationKey)
        requires
            old(self).well_formed(),
        ensures
            final(self).well_formed(),
            move_cursor_effect(old(self).shell_state(), final(self).shell_state(), nav),
            old(self).shell_state().prompt_ready() ==> final(self).shell_state().prompt_ready(),
            final(self).first_visible() == old(self).first_visible(),
            final(self).scrolling_enabled() == old(self).scrolling_enabled(),
            final(self).color_code() == old(self).color_code(),
    {
        self.shell.move_cursor(nav);
    }

    /// Ends a pending command's output as [`Shell::finish_command`] does;
    /// the viewport is not touched.
    pub fn finish_command(&mut self)
        requires
            old(self).well_formed(),
        ensures
            final(self).well_formed(),
            final(self).shell_state().rows() == crate::shell::with_live(
                crate::shell::commit_rows(old(self).shell_state().rows()),
                shell_prompt(),
            ),
            final(self).shell_state().cursor_col() == SHELL_PROMPT_LENGTH,
            final(self).shell_state().prompt_ready(),
            final(self).first_visible() == old(self).first_visible(),
            final(self).scrolling_enabled() == old(self).scrolling_enabled(),
            final(self).color_code() == old(self).color_code(),
    {
        self.shell.finish_command();
    }
}

} // verus!
