//! The terminal bank and renderer: a fixed set of virtual terminals, an
//! active-terminal selector that routes all input, and the translation of
//! the active terminal's visible window into the device cell format.
//!
//! No hardware is touched here. Rendering produces a [`Frame`] — the full
//! grid of cells plus the hardware cursor's intended state — and the caller
//! performs the ordered device writes.

use crate::color::{ColorCode, ScreenChar};
use crate::command::Command;
use crate::keyboard::NavigationKey;
use crate::screen::VgaScreen;
use crate::shell::{
    backspace_effect, command_line_effect, fresh_rows, move_cursor_effect, write_byte_effect,
};
use crate::{
    SHELLS_COUNT, SHELL_PROMPT_LENGTH, VGA_BUFFER_HEIGHT, VGA_BUFFER_WIDTH,
    VGA_COMMAND_LINE_ROW_INDEX, VGA_MIN_FIRST_LINE,
};
use vstd::prelude::*;

verus! {

/// Everything the device must be told after a change: the full visible grid,
/// and where the hardware cursor goes (`None`: hide it).
pub struct Frame {
    pub cells: Vec<Vec<ScreenChar>>,
    pub cursor: Option<(usize, usize)>,
}

/// What the caller must do to the device after routing an input event.
#[derive(Debug, Clone, Copy, PartialEq, Eq, Structural)]
pub enum RenderAction {
    /// Write the whole visible grid and the cursor state anew.
    Redraw,
    /// Only the hardware cursor moved.
    RepositionCursor,
    /// Nothing visible changed.
    Keep,
}

pub struct VGAScreenManager {
    shells: Vec<VgaScreen>,
    active_shell_index: usize,
}

impl VGAScreenManager {
    /// All terminals, in their fixed order.
    pub closed spec fn screens(self) -> Seq<VgaScreen> {
        self.shells@
    }

    /// Which terminal currently owns the device and the input.
    pub closed spec fn active_index(self) -> nat {
        self.active_shell_index as nat
    }

    /// The terminal currently shown.
    pub open spec fn active_screen(self) -> VgaScreen {
        self.screens()[self.active_index() as int]
    }

    /// The fixed complement of terminals, each well formed with a consistent
    /// viewport, and a valid active selector.
    pub closed spec fn well_formed(self) -> bool {
        &&& self.shells@.len() == SHELLS_COUNT
        &&& self.active_shell_index < SHELLS_COUNT
        &&& forall|i: int|
            0 <= i < SHELLS_COUNT ==> (#[trigger] self.shells@[i]).well_formed()
                && self.shells@[i].viewport_ok()
    }

    /// A bank of fresh terminals, one per color, the first one active.
    pub fn new(colors: &[ColorCode; SHELLS_COUNT]) -> (m: Self)
        ensures
            m.well_formed(),
            m.active_index() == 0,
            forall|i: int|
                0 <= i < SHELLS_COUNT ==> {
                    let s = #[trigger] m.screens()[i];
                    &&& s.color_code() == colors@[i]
                    &&& s.first_visible() == VGA_MIN_FIRST_LINE
                    &&& !s.scrolling_enabled()
                    &&& s.shell_state().prompt_ready()
                    &&& s.shell_state().cursor_col() == SHELL_PROMPT_LENGTH
                    &&& s.shell_state().live_row() == crate::shell_prompt()
                    &&& s.shell_state().rows() == fresh_rows()
                },
    {
        let mut shells: Vec<VgaScreen> = Vec::new();
        shells.push(VgaScreen::new(colors[0]));
        shells.push(VgaScreen::new(colors[1]));
        shells.push(VgaScreen::new(colors[2]));
        VGAScreenManager { active_shell_index: 0, shells }
    }

    /// Translates the active terminal's visible window into the device cell
    /// format: every cell of the full grid, trailing blanks included, plus
    /// the hardware cursor's intended state.
    #[verifier::loop_isolation(false)]
    pub fn render_current_screen(&self) -> (frame: Frame)
        requires
            self.well_formed(),
        ensures
            frame.cells@.len() == VGA_BUFFER_HEIGHT,
            forall|y: int|
                0 <= y < VGA_BUFFER_HEIGHT ==> (#[trigger] frame.cells@[y])@.len()
                    == VGA_BUFFER_WIDTH,
            forall|y: int, x: int|
                0 <= y < VGA_BUFFER_HEIGHT && 0 <= x < VGA_BUFFER_WIDTH
                    ==> #[trigger] frame.cells@[y]@[x] == (ScreenChar {
                    ascii_character: self.active_screen().visible_byte(y, x),
                    color_code: self.active_screen().color_code(),
                }),
            self.active_screen().scrolling_enabled() ==> frame.cursor is None,
            !self.active_screen().scrolling_enabled() ==> frame.cursor is Some
                && frame.cursor.unwrap().0 == self.active_screen().shell_state().cursor_col()
                && frame.cursor.unwrap().1 == VGA_COMMAND_LINE_ROW_INDEX,
    {
        let screen = &self.shells[self.active_shell_index];
        let color = screen.color();
        let window = screen.get_data();
        let mut cells: Vec<Vec<ScreenChar>> = Vec::new();
        let mut y: usize = 0;
        while y < VGA_BUFFER_HEIGHT
            invariant
                y <= VGA_BUFFER_HEIGHT,
                cells@.len() == y,
                forall|y0: int|
                    0 <= y0 < y ==> (#[trigger] cells@[y0])@.len() == VGA_BUFFER_WIDTH,
                forall|y0: int, x0: int|
                    0 <= y0 < y && 0 <= x0 < VGA_BUFFER_WIDTH ==> #[trigger] cells@[y0]@[x0]
                        == (ScreenChar {
                        ascii_character: screen.visible_byte(y0, x0),
                        color_code: screen.color_code(),
                    }),
            decreases VGA_BUFFER_HEIGHT - y,
        {
            let row = &window[y];
            proof {
                row.lemma_raw_is_padded_content();
            }
            let mut line: Vec<ScreenChar> = Vec::new();
            let mut x: usize = 0;
            while x < VGA_BUFFER_WIDTH
                invariant
                    x <= VGA_BUFFER_WIDTH,
                    line@.len() == x,
                    forall|x0: int|
                        0 <= x0 < x ==> #[trigger] line@[x0] == (ScreenChar {
                            ascii_character: screen.visible_byte(y as int, x0),
                            color_code: screen.color_code(),
                        }),
                decreases VGA_BUFFER_WIDTH - x,
            {
                line.push(ScreenChar { ascii_character: *row.get_unsafe(x), color_code: color });
                x = x + 1;
            }
            cells.push(line);
            y = y + 1;
        }
        Frame { cells, cursor: screen.render_cursor() }
    }

    /// Snaps the active terminal's viewport back to the live line.
    pub fn reset_scrolling_mode(&mut self)
        requires
            old(self).well_formed(),
        ensures
            final(self).well_formed(),
            final(self).active_index() == old(self).active_index(),
            forall|i: int|
                0 <= i < SHELLS_COUNT && i != old(self).active_index() ==> final(self).screens()[i]
                    == old(self).screens()[i],
            final(self).active_screen().first_visible() == VGA_MIN_FIRST_LINE,
            !final(self).active_screen().scrolling_enabled(),
            final(self).active_screen().shell_state() == old(self).active_screen().shell_state(),
            final(self).active_screen().color_code() == old(self).active_screen().color_code(),
    {
        let index = self.active_shell_index;
        let mut screen = self.shells[index];
        screen.reset_scroll();
        self.shells.set(index, screen);
    }

    /// Routes one byte of command-line input to the active terminal: the
    /// viewport returns to the live line and the byte reaches the text model
    /// as in [`crate::shell::Shell::write_byte_to_the_command_line`]. The
    /// caller redraws, and performs any pending command.
    pub fn write_byte_to_the_command_line(&mut self, byte: u8) -> (pending: Option<Command>)
        requires
            old(self).well_formed(),
        ensures
            final(self).well_formed(),
            final(self).active_index() == old(self).active_index(),
            forall|i: int|
                0 <= i < SHELLS_COUNT && i != old(self).active_index() ==> final(self).screens()[i]
                    == old(self).screens()[i],
            final(self).active_screen().first_visible() == VGA_MIN_FIRST_LINE,
            !final(self).active_screen().scrolling_enabled(),
            final(self).active_screen().color_code() == old(self).active_screen().color_code(),
            command_line_effect(
                old(self).active_screen().shell_state(),
                final(self).active_screen().shell_state(),
                byte,
                pending,
            ),
    {
        let index = self.active_shell_index;
        let mut screen = self.shells[index];
        let pending = screen.write_byte_to_the_command_line(byte);
        self.shells.set(index, screen);
        pending
    }

    /// Stores one byte through the active terminal's text model, leaving the
    /// viewport alone; the caller redraws.
    pub fn write_byte(&mut self, byte: u8)
        requires
            old(self).well_formed(),
        ensures
            final(self).well_formed(),
            final(self).active_index() == old(self).active_index(),
            forall|i: int|
                0 <= i < SHELLS_COUNT && i != old(self).active_index() ==> final(self).screens()[i]
                    == old(self).screens()[i],
            write_byte_effect(
                old(self).active_screen().shell_state(),
                final(self).active_screen().shell_state(),
                byte,
            ),
            final(self).active_screen().first_visible() == old(self).active_screen().first_visible(),
            final(self).active_screen().scrolling_enabled() == old(self).active_screen().scrolling_enabled(),
            final(self).active_screen().color_code() == old(self).active_screen().color_code(),
    {
        let index = self.active_shell_index;
        let mut screen = self.shells[index];
        screen.write_byte(byte);
        self.shells.set(index, screen);
    }

    /// Ends a pending command's output on the active terminal: commits the
    /// line written so far and opens a fresh prompt line.
    pub fn finish_command(&mut self)
        requires
            old(self).well_formed(),
        ensures
            final(self).well_formed(),
            final(self).active_index() == old(self).active_index(),
            forall|i: int|
                0 <= i < SHELLS_COUNT && i != old(self).active_index() ==> final(self).screens()[i]
                    == old(self).screens()[i],
            final(self).active_screen().shell_state().rows() == crate::shell::with_live(
                crate::shell::commit_rows(old(self).active_screen().shell_state().rows()),
                crate::shell_prompt(),
            ),
            final(self).active_screen().shell_state().cursor_col() == SHELL_PROMPT_LENGTH,
            final(self).active_screen().shell_state().prompt_ready(),
            final(self).active_screen().first_visible() == old(self).active_screen().first_visible(),
            final(self).active_screen().scrolling_enabled() == old(self).active_screen().scrolling_enabled(),
            final(self).active_screen().color_code() == old(self).active_screen().color_code(),
    {
        let index = self.active_shell_index;
        let mut screen = self.shells[index];
        screen.finish_command();
        self.shells.set(index, screen);
    }

    /// Routes a navigation key: vertical keys scroll the active terminal's
    /// viewport, the others move its editing cursor (returning to the live
    /// line first when scrolled). Reports what the caller must redraw.
    pub fn navigate(&mut self, nav: NavigationKey) -> (act: RenderAction)
        requires
            old(self).well_formed(),
        ensures
            final(self).well_formed(),
            final(self).active_index() == old(self).active_index(),
            forall|i: int|
                0 <= i < SHELLS_COUNT && i != old(self).active_index() ==> final(self).screens()[i]
                    == old(self).screens()[i],
            final(self).active_screen().color_code() == old(self).active_screen().color_code(),
            final(self).active_screen().viewport_ok(),
            match nav {
                NavigationKey::Up => if old(self).active_screen().first_visible() > 0 {
                    act == RenderAction::Redraw && final(self).active_screen().first_visible()
                        == old(self).active_screen().first_visible() - 1 && final(self).active_screen().scrolling_enabled() && final(self).active_screen().shell_state()
                        == old(self).active_screen().shell_state()
                } else {
                    act == RenderAction::Keep && final(self).active_screen() == old(self).active_screen()
                },
                NavigationKey::Down => if old(self).active_screen().first_visible()
                    < VGA_MIN_FIRST_LINE {
                    act == RenderAction::Redraw && final(self).active_screen().first_visible()
                        == old(self).active_screen().first_visible() + 1 && final(self).active_screen().shell_state() == old(self).active_screen().shell_state()
                } else {
                    act == RenderAction::Keep && final(self).active_screen() == old(self).active_screen()
                },
                _ => {
                    &&& move_cursor_effect(
                        old(self).active_screen().shell_state(),
                        final(self).active_screen().shell_state(),
                        nav,
                    )
                    &&& !final(self).active_screen().scrolling_enabled()
                    &&& old(self).active_screen().scrolling_enabled() ==> act
                        == RenderAction::Redraw && final(self).active_screen().first_visible()
                        == VGA_MIN_FIRST_LINE
                    &&& !old(self).active_screen().scrolling_enabled() ==> act
                        == RenderAction::RepositionCursor && final(self).active_screen().first_visible() == old(self).active_screen().first_visible()
                },
            },
    {
        let index = self.active_shell_index;
        let mut screen = self.shells[index];
        let act = match nav {
            NavigationKey::Up => {
                if screen.scroll_up() {
                    RenderAction::Redraw
                } else {
                    RenderAction::Keep
                }
            },
            NavigationKey::Down => {
                if screen.scroll_down() {
                    RenderAction::Redraw
                } else {
                    RenderAction::Keep
                }
            },
            _ => {
                screen.move_cursor(nav);
                if screen.is_scrolling() {
                    screen.reset_scroll();
                    RenderAction::Redraw
                } else {
                    RenderAction::RepositionCursor
                }
            },
        };
        self.shells.set(index, screen);
        act
    }

    /// Removes the byte before the active terminal's cursor. On success
    /// reports the device cells to rewrite on the command-line row, and the
    /// column the run starts at; the caller also repositions the cursor.
    #[verifier::loop_isolation(false)]
    pub fn handle_backspace(&mut self) -> (r: Option<(Vec<ScreenChar>, usize)>)
        requires
            old(self).well_formed(),
        ensures
            final(self).well_formed(),
            final(self).active_index() == old(self).active_index(),
            forall|i: int|
                0 <= i < SHELLS_COUNT && i != old(self).active_index() ==> final(self).screens()[i]
                    == old(self).screens()[i],
            backspace_effect(
                old(self).active_screen().shell_state(),
                final(self).active_screen().shell_state(),
            ),
            final(self).active_screen().first_visible() == old(self).active_screen().first_visible(),
            final(self).active_screen().scrolling_enabled() == old(self).active_screen().scrolling_enabled(),
            final(self).active_screen().color_code() == old(self).active_screen().color_code(),
            r is Some <==> old(self).active_screen().shell_state().cursor_col()
                > SHELL_PROMPT_LENGTH && old(self).active_screen().shell_state().cursor_col() - 1
                < old(self).active_screen().shell_state().live_row().len(),
            r is Some ==> {
                let (cells, start) = r.unwrap();
                let live = final(self).active_screen().shell_state().live_row();
                &&& start == old(self).active_screen().shell_state().cursor_col() - 1
                &&& cells@.len() == old(self).active_screen().shell_state().live_row().len()
                    - start
                &&& forall|i: int|
                    0 <= i < cells@.len() ==> #[trigger] cells@[i] == (ScreenChar {
                        ascii_character: if start + i < live.len() {
                            live[start + i]
                        } else {
                            32
                        },
                        color_code: old(self).active_screen().color_code(),
                    })
            },
    {
        let index = self.active_shell_index;
        let mut screen = self.shells[index];
        let color = screen.color();
        proof {
            screen.lemma_well_formed_parts();
            screen.shell_state().lemma_live_row_bound();
        }
        let mut result: Option<(Vec<ScreenChar>, usize)> = None;
        match screen.handle_backspace() {
            Some((row, start, end)) => {
                proof {
                    row.lemma_raw_is_padded_content();
                }
                let mut cells: Vec<ScreenChar> = Vec::new();
                let mut i: usize = start;
                while i < end
                    invariant
                        start <= i <= end,
                        cells@.len() == i - start,
                        forall|k: int|
                            0 <= k < cells@.len() ==> #[trigger] cells@[k] == (ScreenChar {
                                ascii_character: if start + k < row@.len() {
                                    row@[start + k]
                                } else {
                                    32
                                },
                                color_code: color,
                            }),
                    decreases end - i,
                {
                    cells.push(ScreenChar { ascii_character: *row.get_unsafe(i), color_code: color });
                    i = i + 1;
                }
                result = Some((cells, start));
            },
            None => {},
        }
        self.shells.set(index, screen);
        result
    }

    /// Makes another terminal active; an index outside the bank is ignored.
    /// The caller redraws, since the whole device now shows the other
    /// terminal's state.
    pub fn change_terminal(&mut self, terminal_nbr: usize)
        requires
            old(self).well_formed(),
        ensures
            final(self).well_formed(),
            final(self).screens() == old(self).screens(),
            terminal_nbr < SHELLS_COUNT ==> final(self).active_index() == terminal_nbr,
            terminal_nbr >= SHELLS_COUNT ==> final(self).active_index() == old(self).active_index(),
    {
        if terminal_nbr < SHELLS_COUNT {
            self.active_shell_index = terminal_nbr;
        }
    }
}

} // verus!
