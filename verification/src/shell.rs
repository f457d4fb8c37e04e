//! One virtual terminal's text model: a fixed-height scrollback store whose
//! last row is the editable command line, a cursor confined to that line, and
//! the line-commit/dispatch cycle that runs when a line is finished.
//!
//! Everything here is pure state transformation. Commands whose effect the
//! library cannot perform itself (rebooting, powering off, dumping memory)
//! are handed back to the caller as a pending [`Command`]; after performing
//! one that produces output, the caller closes the cycle with
//! [`Shell::finish_command`].

use crate::command::{spec_parse, Command};
use crate::data_structure::StackVec;
use crate::keyboard::NavigationKey;
use crate::{
    shell_prompt, SHELL_BUFFER_HEIGHT, SHELL_COMMAND_LINE_ROW_INDEX, SHELL_PROMPT_LENGTH,
    VGA_BUFFER_WIDTH,
};
use vstd::prelude::*;
use vstd::string::is_ascii;

verus! {

/// Bytes the terminal shows as themselves: the ASCII graphic range and ASCII
/// whitespace. Anything else is replaced by the sentinel glyph.
pub open spec fn is_writable_byte(b: u8) -> bool {
    (0x21 <= b <= 0x7e) || b == 32 || b == 9 || b == 10 || b == 12 || b == 13
}

/// What a byte looks like once stored: itself when writable, otherwise the
/// fixed sentinel.
pub open spec fn sanitize_byte(b: u8) -> u8 {
    if is_writable_byte(b) {
        b
    } else {
        0xfe
    }
}

/// The scrollback after a line commit: every row moves up one position and a
/// fresh empty row becomes the live command line.
pub open spec fn commit_rows(rows: Seq<Seq<u8>>) -> Seq<Seq<u8>> {
    rows.subrange(1, rows.len() as int).push(Seq::<u8>::empty())
}

/// A scrollback of nothing but empty rows.
pub open spec fn empty_rows() -> Seq<Seq<u8>> {
    Seq::new(SHELL_BUFFER_HEIGHT as nat, |i: int| Seq::<u8>::empty())
}

/// `rows` with its live command line replaced by `line`.
pub open spec fn with_live(rows: Seq<Seq<u8>>, line: Seq<u8>) -> Seq<Seq<u8>> {
    rows.update(SHELL_COMMAND_LINE_ROW_INDEX as int, line)
}

/// The text shown for an unrecognized command: `"command not found"`.
pub open spec fn error_text() -> Seq<u8> {
    seq![99, 111, 109, 109, 97, 110, 100, 32, 110, 111, 116, 32, 102, 111, 117, 110, 100]
}

/// Number of lines in the startup banner.
pub const BANNER_HEIGHT: usize = 9;

/// `line` with the three prompt bytes inserted at `col`.
pub open spec fn with_prompt_at(line: Seq<u8>, col: int) -> Seq<u8> {
    line.insert(col, 36u8).insert(col + 1, 62u8).insert(col + 2, 32u8)
}

/// A fresh terminal's text: empty history rows, then the banner's lines,
/// then the prompt alone on the live line.
pub open spec fn fresh_rows() -> Seq<Seq<u8>> {
    Seq::new(
        SHELL_BUFFER_HEIGHT as nat,
        |i: int|
            if i < SHELL_BUFFER_HEIGHT - BANNER_HEIGHT - 1 {
                Seq::<u8>::empty()
            } else if i < SHELL_BUFFER_HEIGHT - 1 {
                banner_lines()[i - (SHELL_BUFFER_HEIGHT - BANNER_HEIGHT - 1)]
            } else {
                shell_prompt()
            },
    )
}

/// How one byte changes the shell: a (sanitized) newline commits the line and
/// rehomes the cursor; any other byte is inserted at the cursor when the
/// cursor is inside the line and the line has room, and is silently dropped
/// otherwise.
pub open spec fn write_byte_effect(pre: Shell, post: Shell, byte: u8) -> bool {
    let b = sanitize_byte(byte);
    if b == 10 {
        post.rows() == commit_rows(pre.rows()) && post.cursor_col() == 0
    } else if pre.cursor_col() <= pre.live_row().len() && pre.live_row().len() < VGA_BUFFER_WIDTH {
        post.rows() == with_live(
            pre.rows(),
            pre.live_row().insert(pre.cursor_col() as int, b),
        ) && post.cursor_col() == pre.cursor_col() + 1
    } else {
        post == pre
    }
}

/// How one byte of routed input changes the shell and what it leaves pending.
/// A non-newline byte is ordinary editing input and leaves nothing pending. A
/// newline finishes the line: the line is committed and recognized; `clear`
/// is performed on the spot, an unrecognized line is answered with
/// [`error_text`] and a fresh prompt, and any other recognized command is
/// left pending for the caller, the store holding just the committed line.
pub open spec fn command_line_effect(
    pre: Shell,
    post: Shell,
    byte: u8,
    pending: Option<Command>,
) -> bool {
    if byte != 10 {
        pending == None::<Command> && write_byte_effect(pre, post, byte) && (pre.prompt_ready()
            ==> post.prompt_ready())
    } else {
        match spec_parse(pre.live_row()) {
            Some(Command::Clear) => pending == None::<Command> && post.rows() == with_live(
                empty_rows(),
                shell_prompt(),
            ) && post.cursor_col() == SHELL_PROMPT_LENGTH && post.prompt_ready(),
            Some(cmd) => pending == Some(cmd) && post.rows() == commit_rows(pre.rows())
                && post.cursor_col() == 0,
            None => pending == None::<Command> && post.rows() == with_live(
                commit_rows(with_live(commit_rows(pre.rows()), error_text())),
                shell_prompt(),
            ) && post.cursor_col() == SHELL_PROMPT_LENGTH && post.prompt_ready(),
        }
    }
}

/// How a backspace changes the shell: at or before the prompt it does
/// nothing; otherwise the cursor steps back, and the byte there is removed
/// when there is one.
pub open spec fn backspace_effect(pre: Shell, post: Shell) -> bool {
    if pre.cursor_col() > SHELL_PROMPT_LENGTH {
        if pre.cursor_col() - 1 < pre.live_row().len() {
            post.rows() == with_live(
                pre.rows(),
                pre.live_row().remove(pre.cursor_col() - 1),
            ) && post.cursor_col() == pre.cursor_col() - 1
        } else {
            post.rows() == pre.rows() && post.cursor_col() == pre.cursor_col() - 1
        }
    } else {
        post == pre
    }
}

/// How a navigation key moves the cursor: left and right clamp at the prompt
/// and at the line's end, Home and End jump to them, vertical keys change
/// nothing here. The text itself never changes.
pub open spec fn move_cursor_effect(pre: Shell, post: Shell, nav: NavigationKey) -> bool {
    post.rows() == pre.rows() && post.cursor_col() == match nav {
        NavigationKey::Left => if pre.cursor_col() > SHELL_PROMPT_LENGTH {
            pre.cursor_col() - 1
        } else {
            pre.cursor_col() as int
        },
        NavigationKey::Right => if pre.cursor_col() < pre.live_row().len() {
            pre.cursor_col() + 1 as int
        } else {
            pre.cursor_col() as int
        },
        NavigationKey::Home => SHELL_PROMPT_LENGTH as int,
        NavigationKey::End => pre.live_row().len() as int,
        NavigationKey::Up => pre.cursor_col() as int,
        NavigationKey::Down => pre.cursor_col() as int,
    }
}

#[derive(Debug, Copy, Clone)]
pub struct Shell {
    cursor_position: usize,
    buffer: StackVec<StackVec<u8, VGA_BUFFER_WIDTH>, SHELL_BUFFER_HEIGHT>,
}

impl Shell {
    /// The logical text: one byte sequence per scrollback row, the last row
    /// being the live command line.
    pub closed spec fn rows(self) -> Seq<Seq<u8>> {
        self.buffer@.map_values(|r: StackVec<u8, VGA_BUFFER_WIDTH>| r@)
    }

    /// The editing cursor's column on the live command line.
    pub closed spec fn cursor_col(self) -> nat {
        self.cursor_position as nat
    }

    /// The live command line's content.
    pub open spec fn live_row(self) -> Seq<u8> {
        self.rows()[SHELL_COMMAND_LINE_ROW_INDEX as int]
    }

    /// Structural invariant: the store always holds the full complement of
    /// well-formed, blank-filled rows.
    pub closed spec fn well_formed(self) -> bool {
        &&& self.buffer.well_formed()
        &&& self.buffer@.len() == SHELL_BUFFER_HEIGHT
        &&& self.buffer.fill_value().well_formed()
        &&& self.buffer.fill_value()@ == Seq::<u8>::empty()
        &&& self.buffer.fill_value().fill_value() == 32u8
        &&& forall|i: int|
            0 <= i < SHELL_BUFFER_HEIGHT ==> (#[trigger] self.buffer@[i]).well_formed()
                && self.buffer@[i].fill_value() == 32u8
    }

    /// The live line carries the prompt and the cursor sits at or after it:
    /// the state every editing operation starts from and returns to.
    pub open spec fn prompt_ready(self) -> bool {
        SHELL_PROMPT_LENGTH <= self.cursor_col() <= self.live_row().len()
    }

    /// Cursor bound: whenever the prompt is in place — `new` establishes
    /// `prompt_ready` and the contracts of `write_byte` (for bytes other
    /// than newline), `move_cursor` and `handle_backspace` preserve it — the
    /// cursor stays between the prompt length and the live row's length, and
    /// that length never exceeds the line width.
    pub proof fn lemma_cursor_bound(self)
        requires
            self.well_formed(),
            self.prompt_ready(),
        ensures
            SHELL_PROMPT_LENGTH <= self.cursor_col() <= self.live_row().len()
                <= VGA_BUFFER_WIDTH,
    {
        self.buffer@[SHELL_COMMAND_LINE_ROW_INDEX as int].lemma_raw_is_padded_content();
    }

    /// No row, the live one included, ever grows past the line width.
    pub proof fn lemma_live_row_bound(self)
        requires
            self.well_formed(),
        ensures
            self.rows().len() == SHELL_BUFFER_HEIGHT,
            forall|i: int| 0 <= i < SHELL_BUFFER_HEIGHT ==> #[trigger] self.rows()[i].len()
                <= VGA_BUFFER_WIDTH,
            self.live_row().len() <= VGA_BUFFER_WIDTH,
    {
        assert forall|i: int| 0 <= i < SHELL_BUFFER_HEIGHT implies #[trigger] self.rows()[i].len()
            <= VGA_BUFFER_WIDTH by {
            self.buffer@[i].lemma_raw_is_padded_content();
        }
    }

    /// A store holding the full complement of empty rows.
    fn full_store() -> (r: StackVec<StackVec<u8, VGA_BUFFER_WIDTH>, SHELL_BUFFER_HEIGHT>)
        ensures
            r.well_formed(),
            r@.len() == SHELL_BUFFER_HEIGHT,
            r.fill_value().well_formed(),
            r.fill_value()@ == Seq::<u8>::empty(),
            r.fill_value().fill_value() == 32u8,
            forall|i: int|
                0 <= i < SHELL_BUFFER_HEIGHT ==> (#[trigger] r@[i]).well_formed() && r@[i]@
                    == Seq::<u8>::empty() && r@[i].fill_value() == 32u8,
    {
        let empty_row = StackVec::<u8, VGA_BUFFER_WIDTH>::new(32);
        let mut buffer = StackVec::<StackVec<u8, VGA_BUFFER_WIDTH>, SHELL_BUFFER_HEIGHT>::new(
            empty_row,
        );
        let mut i: usize = 0;
        while i < SHELL_BUFFER_HEIGHT
            invariant
                i <= SHELL_BUFFER_HEIGHT,
                buffer.well_formed(),
                buffer@.len() == i,
                buffer.fill_value() == empty_row,
                empty_row.well_formed(),
                empty_row@ == Seq::<u8>::empty(),
                empty_row.fill_value() == 32u8,
                forall|k: int| 0 <= k < i ==> buffer@[k] == empty_row,
            decreases SHELL_BUFFER_HEIGHT - i,
        {
            let _ = buffer.push(empty_row);
            i = i + 1;
        }
        buffer
    }

    /// A fresh terminal: banner written into the scrollback, prompt on the
    /// live line, cursor right after the prompt.
    pub fn new() -> (s: Shell)
        ensures
            s.well_formed(),
            s.prompt_ready(),
            s.cursor_col() == SHELL_PROMPT_LENGTH,
            s.live_row() == shell_prompt(),
            s.rows() == fresh_rows(),
    {
        let mut shell = Shell { cursor_position: 0, buffer: Self::full_store() };
        proof {
            assert(shell.rows() =~= empty_rows());
        }
        shell.print_header();
        shell.print_prompt();
        proof {
            assert(shell.rows() =~= fresh_rows());
        }
        shell
    }

    /// Writes the banner: whatever line was in progress is committed first,
    /// the banner's lines follow it into the history, and the cursor is left
    /// at the start of an empty live line for the prompt that follows.
    pub fn print_header(&mut self)
        requires
            old(self).well_formed(),
        ensures
            final(self).well_formed(),
            final(self).rows() == old(self).rows().subrange(
                BANNER_HEIGHT + 1,
                SHELL_BUFFER_HEIGHT as int,
            ) + banner_lines().push(Seq::<u8>::empty()),
            final(self).cursor_col() == 0,
            final(self).live_row().len() == 0,
    {
        let ghost s0 = *self;
        self.write_byte(10);
        proof {
            assert(self.rows() =~= s0.rows().subrange(1, SHELL_BUFFER_HEIGHT as int)
                + banner_lines().take(0) + seq![Seq::<u8>::empty()]);
            assert(self.live_row() =~= Seq::<u8>::empty());
        }
        let mut k: usize = 0;
        while k < BANNER_HEIGHT
            invariant
                k <= BANNER_HEIGHT,
                s0.well_formed(),
                self.well_formed(),
                self.cursor_col() == 0,
                self.live_row().len() == 0,
                self.rows() == s0.rows().subrange(k + 1, SHELL_BUFFER_HEIGHT as int)
                    + banner_lines().take(k as int) + seq![Seq::<u8>::empty()],
            decreases BANNER_HEIGHT - k,
        {
            self.write_banner_line(banner_row_text(k));
            proof {
                assert(self.rows() =~= s0.rows().subrange(k + 2, SHELL_BUFFER_HEIGHT as int)
                    + banner_lines().take(k + 1) + seq![Seq::<u8>::empty()]);
            }
            k = k + 1;
        }
        proof {
            assert(self.rows() =~= s0.rows().subrange(
                BANNER_HEIGHT + 1,
                SHELL_BUFFER_HEIGHT as int,
            ) + banner_lines().push(Seq::<u8>::empty()));
        }
    }

    /// Writes one banner line onto the (empty) live line and commits it.
    fn write_banner_line(&mut self, line: &str)
        requires
            old(self).well_formed(),
            old(self).cursor_col() == 0,
            old(self).live_row().len() == 0,
            is_ascii(line),
            line@.len() < VGA_BUFFER_WIDTH,
            forall|i: int|
                0 <= i < line@.len() ==> is_writable_byte(#[trigger] line@[i] as u8)
                    && line@[i] as u8 != 10,
        ensures
            final(self).well_formed(),
            final(self).rows() == commit_rows(with_live(old(self).rows(), ascii_bytes(line@))),
            final(self).cursor_col() == 0,
            final(self).live_row().len() == 0,
    {
        let ghost s0 = *self;
        let bytes = line.as_bytes();
        proof {
            assert(bytes@ =~= ascii_bytes(line@));
            assert(s0.live_row() =~= Seq::<u8>::empty());
            assert(bytes@.take(0) =~= Seq::<u8>::empty());
            assert(with_live(s0.rows(), bytes@.take(0)) =~= s0.rows());
        }
        let mut i: usize = 0;
        while i < bytes.len()
            invariant
                s0.well_formed(),
                self.well_formed(),
                i <= bytes@.len(),
                bytes@.len() < VGA_BUFFER_WIDTH,
                forall|j: int|
                    0 <= j < bytes@.len() ==> is_writable_byte(#[trigger] bytes@[j])
                        && bytes@[j] != 10,
                self.cursor_col() == i,
                self.rows() == with_live(s0.rows(), bytes@.take(i as int)),
            decreases bytes@.len() - i,
        {
            self.write_byte(bytes[i]);
            proof {
                assert(bytes@.take(i as int).insert(i as int, bytes@[i as int])
                    =~= bytes@.take(i + 1));
                assert(self.rows() =~= with_live(s0.rows(), bytes@.take(i + 1)));
            }
            i = i + 1;
        }
        proof {
            assert(bytes@.take(bytes@.len() as int) =~= bytes@);
        }
        self.write_byte(10);
        proof {
            assert(self.rows() =~= commit_rows(with_live(s0.rows(), ascii_bytes(line@))));
            assert(self.live_row() =~= Seq::<u8>::empty());
        }
    }

    /// Writes the prompt, byte by byte, at the cursor: when the cursor is
    /// inside the line and the line has room for all three bytes, the prompt
    /// is inserted there; on a fresh line the live line becomes exactly the
    /// prompt.
    pub fn print_prompt(&mut self)
        requires
            old(self).well_formed(),
        ensures
            final(self).well_formed(),
            old(self).cursor_col() <= old(self).live_row().len() && old(self).live_row().len()
                + SHELL_PROMPT_LENGTH <= VGA_BUFFER_WIDTH ==> final(self).rows() == with_live(
                old(self).rows(),
                with_prompt_at(old(self).live_row(), old(self).cursor_col() as int),
            ) && final(self).cursor_col() == old(self).cursor_col() + SHELL_PROMPT_LENGTH,
            old(self).cursor_col() == 0 && old(self).live_row().len() == 0 ==> final(self).rows()
                == with_live(old(self).rows(), shell_prompt()) && final(self).cursor_col()
                == SHELL_PROMPT_LENGTH && final(self).prompt_ready(),
            old(self).prompt_ready() ==> final(self).prompt_ready(),
    {
        let ghost s0 = *self;
        self.write_byte(36);
        let ghost s1 = *self;
        self.write_byte(62);
        let ghost s2 = *self;
        self.write_byte(32);
        proof {
            if s0.cursor_col() <= s0.live_row().len() && s0.live_row().len() + SHELL_PROMPT_LENGTH
                <= VGA_BUFFER_WIDTH {
                let c = s0.cursor_col() as int;
                assert(s1.live_row() == s0.live_row().insert(c, 36u8));
                assert(s2.live_row() == s1.live_row().insert(c + 1, 62u8));
                assert(self.live_row() == s2.live_row().insert(c + 2, 32u8));
                assert(self.rows() =~= with_live(s0.rows(), with_prompt_at(s0.live_row(), c)));
                if s0.cursor_col() == 0 && s0.live_row().len() == 0 {
                    assert(s0.live_row() =~= Seq::<u8>::empty());
                    assert(with_prompt_at(s0.live_row(), 0) =~= shell_prompt());
                }
            }
        }
    }

    /// Stores one byte: a newline commits the line; any other byte is
    /// sanitized and inserted at the cursor, and silently dropped when the
    /// line is full (no wrapping) or the cursor lies beyond the line's end.
    pub fn write_byte(&mut self, byte: u8)
        requires
            old(self).well_formed(),
        ensures
            final(self).well_formed(),
            write_byte_effect(*old(self), *final(self), byte),
            old(self).prompt_ready() && byte != 10 ==> final(self).prompt_ready(),
    {
        let byte = sanitize(byte);
        if byte == 10 {
            self.new_line();
        } else {
            let cursor_position = self.cursor_position;
            proof {
                self.buffer.lemma_raw_is_padded_content();
            }
            let mut cmd_line = *self.buffer.get_unsafe(SHELL_COMMAND_LINE_ROW_INDEX);
            if cmd_line.push_at(cursor_position, byte) {
                let _ = self.buffer.set_at(SHELL_COMMAND_LINE_ROW_INDEX, cmd_line);
                self.cursor_position = cursor_position + 1;
                proof {
                    assert(self.rows() =~= with_live(
                        old(self).rows(),
                        old(self).live_row().insert(old(self).cursor_col() as int, byte),
                    ));
                }
            }
        }
    }

    /// Line commit: every row moves up one position, the live line is
    /// cleared and the cursor rehomed. The caller decides what line starts
    /// next (a prompt, command output, or nothing).
    fn new_line(&mut self)
        requires
            old(self).well_formed(),
        ensures
            final(self).well_formed(),
            final(self).rows() == commit_rows(old(self).rows()),
            final(self).cursor_col() == 0,
    {
        let ghost orig = *self;
        let mut row_index: usize = 1;
        while row_index < SHELL_BUFFER_HEIGHT
            invariant
                1 <= row_index <= SHELL_BUFFER_HEIGHT,
                self.well_formed(),
                orig.well_formed(),
                forall|k: int| 0 <= k < row_index - 1 ==> self.buffer@[k] == orig.buffer@[k + 1],
                forall|k: int|
                    row_index - 1 <= k < SHELL_BUFFER_HEIGHT ==> self.buffer@[k]
                        == orig.buffer@[k],
            decreases SHELL_BUFFER_HEIGHT - row_index,
        {
            proof {
                self.buffer.lemma_raw_is_padded_content();
            }
            let row = *self.buffer.get_unsafe(row_index);
            let _ = self.buffer.set_at(row_index - 1, row);
            row_index = row_index + 1;
        }
        let _ = self.buffer.set_at(
            SHELL_COMMAND_LINE_ROW_INDEX,
            StackVec::<u8, VGA_BUFFER_WIDTH>::new(32),
        );
        self.cursor_position = 0;
        proof {
            assert(self.rows() =~= commit_rows(orig.rows()));
        }
    }

    /// Resets the whole store to empty rows, keeping nothing.
    fn clear_buffer(&mut self)
        ensures
            final(self).well_formed(),
            final(self).rows() == empty_rows(),
            final(self).cursor_col() == 0,
    {
        self.buffer = Self::full_store();
        self.cursor_position = 0;
        proof {
            assert(self.rows() =~= empty_rows());
        }
    }

    /// Writes the unrecognized-command message onto the (empty) live line.
    fn write_error_message(&mut self)
        requires
            old(self).well_formed(),
            old(self).cursor_col() == 0,
            old(self).live_row().len() == 0,
        ensures
            final(self).well_formed(),
            final(self).rows() == with_live(old(self).rows(), error_text()),
            final(self).cursor_col() == error_text().len(),
    {
        let mut row = StackVec::<u8, VGA_BUFFER_WIDTH>::new(32);
        let _ = row.push(99);
        let _ = row.push(111);
        let _ = row.push(109);
        let _ = row.push(109);
        let _ = row.push(97);
        let _ = row.push(110);
        let _ = row.push(100);
        let _ = row.push(32);
        let _ = row.push(110);
        let _ = row.push(111);
        let _ = row.push(116);
        let _ = row.push(32);
        let _ = row.push(102);
        let _ = row.push(111);
        let _ = row.push(117);
        let _ = row.push(110);
        let _ = row.push(100);
        proof {
            assert(row@ =~= error_text());
        }
        self.cursor_position = row.len();
        let _ = self.buffer.set_at(SHELL_COMMAND_LINE_ROW_INDEX, row);
        proof {
            assert(self.rows() =~= with_live(old(self).rows(), error_text()));
        }
    }

    /// Ends a command's output: commits the current line and opens a fresh
    /// prompt line. Callers run this after performing a pending command that
    /// wrote output back into the shell.
    pub fn finish_command(&mut self)
        requires
            old(self).well_formed(),
        ensures
            final(self).well_formed(),
            final(self).rows() == with_live(commit_rows(old(self).rows()), shell_prompt()),
            final(self).cursor_col() == SHELL_PROMPT_LENGTH,
            final(self).prompt_ready(),
    {
        self.new_line();
        self.print_prompt();
    }

    /// Routes one byte of input. A newline finishes the line: the line is
    /// committed and recognized; `clear` and an unrecognized line are handled
    /// here (the latter by reporting `"command not found"`), and any other
    /// recognized command is returned for the caller to perform. Every other
    /// byte is ordinary editing input.
    pub fn write_byte_to_the_command_line(&mut self, byte: u8) -> (pending: Option<Command>)
        requires
            old(self).well_formed(),
        ensures
            final(self).well_formed(),
            command_line_effect(*old(self), *final(self), byte, pending),
    {
        if byte == 10 {
            proof {
                self.buffer.lemma_raw_is_padded_content();
            }
            let command = Command::try_from(self.buffer.get_unsafe(SHELL_COMMAND_LINE_ROW_INDEX));
            self.new_line();
            match command {
                Some(Command::Clear) => {
                    self.clear_buffer();
                    self.finish_command();
                    proof {
                        assert(commit_rows(empty_rows()) =~= empty_rows());
                        assert(with_live(commit_rows(empty_rows()), shell_prompt()) =~= with_live(
                            empty_rows(),
                            shell_prompt(),
                        ));
                    }
                    None
                },
                Some(command) => Some(command),
                None => {
                    self.write_error_message();
                    self.finish_command();
                    None
                },
            }
        } else {
            self.write_byte(byte);
            None
        }
    }

    pub fn cursor_position(&self) -> (r: usize)
        ensures
            r == self.cursor_col(),
    {
        self.cursor_position
    }

    /// The whole scrollback store, for rendering.
    pub fn get_data(&self) -> (r: &StackVec<StackVec<u8, VGA_BUFFER_WIDTH>, SHELL_BUFFER_HEIGHT>)
        requires
            self.well_formed(),
        ensures
            r.well_formed(),
            r@.len() == SHELL_BUFFER_HEIGHT,
            forall|i: int|
                0 <= i < SHELL_BUFFER_HEIGHT ==> (#[trigger] r@[i])@ == self.rows()[i]
                    && r@[i].well_formed() && r@[i].fill_value() == 32u8,
    {
        &self.buffer
    }

    /// Removes the byte before the cursor, unless the cursor sits at the
    /// prompt. On success reports the changed row and the half-open column
    /// range that needs re-rendering: from the new cursor to the row's old
    /// length.
    pub fn handle_backspace(&mut self) -> (r: Option<
        (&StackVec<u8, VGA_BUFFER_WIDTH>, usize, usize),
    >)
        requires
            old(self).well_formed(),
        ensures
            final(self).well_formed(),
            backspace_effect(*old(self), *final(self)),
            r is Some <==> old(self).cursor_col() > SHELL_PROMPT_LENGTH && old(self).cursor_col()
                - 1 < old(self).live_row().len(),
            r is Some ==> {
                let (row, start, end) = r.unwrap();
                &&& row@ == final(self).live_row()
                &&& row.well_formed()
                &&& row.fill_value() == 32u8
                &&& start == old(self).cursor_col() - 1
                &&& end == old(self).live_row().len()
            },
            old(self).prompt_ready() ==> final(self).prompt_ready(),
    {
        if self.cursor_position > SHELL_PROMPT_LENGTH {
            self.cursor_position = self.cursor_position - 1;
            let cursor_position = self.cursor_position;
            proof {
                self.buffer.lemma_raw_is_padded_content();
            }
            let mut cmd_line = *self.buffer.get_unsafe(SHELL_COMMAND_LINE_ROW_INDEX);
            let end_pos = cmd_line.len();
            match cmd_line.pop_at(cursor_position) {
                Some(_) => {
                    let _ = self.buffer.set_at(SHELL_COMMAND_LINE_ROW_INDEX, cmd_line);
                    proof {
                        assert(self.rows() =~= with_live(
                            old(self).rows(),
                            old(self).live_row().remove(old(self).cursor_col() - 1),
                        ));
                        self.buffer.lemma_raw_is_padded_content();
                    }
                    Some((self.buffer.get_unsafe(SHELL_COMMAND_LINE_ROW_INDEX), cursor_position,
                    end_pos))
                },
                None => None,
            }
        } else {
            None
        }
    }

    /// Moves the cursor along the live line: left and right clamp at the
    /// prompt and at the line's end, Home and End jump to them; vertical
    /// keys do nothing here (they scroll the viewport, which is not the
    /// shell's concern).
    pub fn move_cursor(&mut self, nav: NavigationKey)
        requires
            old(self).well_formed(),
        ensures
            final(self).well_formed(),
            move_cursor_effect(*old(self), *final(self), nav),
            old(self).prompt_ready() ==> final(self).prompt_ready(),
    {
        match nav {
            NavigationKey::Left => {
                if self.cursor_position > SHELL_PROMPT_LENGTH {
                    self.cursor_position = self.cursor_position - 1;
                }
            },
            NavigationKey::Right => {
                proof {
                    self.buffer.lemma_raw_is_padded_content();
                }
                let cmd_line = self.buffer.get_unsafe(SHELL_COMMAND_LINE_ROW_INDEX);
                if self.cursor_position < cmd_line.len() {
                    self.cursor_position = self.cursor_position + 1;
                }
            },
            NavigationKey::Home => {
                self.cursor_position = SHELL_PROMPT_LENGTH;
            },
            NavigationKey::End => {
                proof {
                    self.buffer.lemma_raw_is_padded_content();
                }
                let cmd_line = self.buffer.get_unsafe(SHELL_COMMAND_LINE_ROW_INDEX);
                self.cursor_position = cmd_line.len();
            },
            _ => (),
        }
    }
}

/// Replaces a byte the terminal cannot show with the sentinel glyph.
fn sanitize(b: u8) -> (r: u8)
    ensures
        r == sanitize_byte(b),
{
    if (0x21 <= b && b <= 0x7e) || b == 32 || b == 9 || b == 10 || b == 12 || b == 13 {
        b
    } else {
        0xfe
    }
}

/// The bytes of an ASCII character sequence.
pub open spec fn ascii_bytes(text: Seq<char>) -> Seq<u8> {
    Seq::new(text.len(), |i: int| text[i] as u8)
}

/// The banner a fresh terminal shows above its first prompt: its lines,
/// oldest first.
pub open spec fn banner_lines() -> Seq<Seq<u8>> {
    seq![
        ascii_bytes("____________/\\\\\\_______/\\\\\\\\\\\\\\\\\\_____"@),
        ascii_bytes(" __________/\\\\\\\\\\_____/\\\\\\///////\\\\\\___"@),
        ascii_bytes("  ________/\\\\\\/\\\\\\____\\///______\\//\\\\\\__"@),
        ascii_bytes("   ______/\\\\\\/\\/\\\\\\______________/\\\\\\/___"@),
        ascii_bytes("    ____/\\\\\\/__\\/\\\\\\___________/\\\\\\//_____"@),
        ascii_bytes("     __/\\\\\\\\\\\\\\\\\\\\\\\\\\\\\\\\_____/\\\\\\//________"@),
        ascii_bytes("      _\\///////////\\\\\\//____/\\\\\\/___________"@),
        ascii_bytes("       ___________\\/\\\\\\_____/\\\\\\\\\\\\\\\\\\\\\\\\\\\\\\_"@),
        ascii_bytes("        ___________\\///_____\\///////////////__"@),
    ]
}

/// One line of the banner's text.
fn banner_row_text(k: usize) -> (s: &'static str)
    requires
        k < BANNER_HEIGHT,
    ensures
        is_ascii(s),
        s@.len() < VGA_BUFFER_WIDTH,
        forall|i: int|
            0 <= i < s@.len() ==> is_writable_byte(#[trigger] s@[i] as u8) && s@[i] as u8 != 10,
        ascii_bytes(s@) == banner_lines()[k as int],
{
    let s = match k {
        0 => "____________/\\\\\\_______/\\\\\\\\\\\\\\\\\\_____",
        1 => " __________/\\\\\\\\\\_____/\\\\\\///////\\\\\\___",
        2 => "  ________/\\\\\\/\\\\\\____\\///______\\//\\\\\\__",
        3 => "   ______/\\\\\\/\\/\\\\\\______________/\\\\\\/___",
        4 => "    ____/\\\\\\/__\\/\\\\\\___________/\\\\\\//_____",
        5 => "     __/\\\\\\\\\\\\\\\\\\\\\\\\\\\\\\\\_____/\\\\\\//________",
        6 => "      _\\///////////\\\\\\//____/\\\\\\/___________",
        7 => "       ___________\\/\\\\\\_____/\\\\\\\\\\\\\\\\\\\\\\\\\\\\\\_",
        _ => "        ___________\\///_____\\///////////////__",
    };
    proof {
        reveal_strlit("____________/\\\\\\_______/\\\\\\\\\\\\\\\\\\_____");
        reveal_strlit(" __________/\\\\\\\\\\_____/\\\\\\///////\\\\\\___");
        reveal_strlit("  ________/\\\\\\/\\\\\\____\\///______\\//\\\\\\__");
        reveal_strlit("   ______/\\\\\\/\\/\\\\\\______________/\\\\\\/___");
        reveal_strlit("    ____/\\\\\\/__\\/\\\\\\___________/\\\\\\//_____");
        reveal_strlit("     __/\\\\\\\\\\\\\\\\\\\\\\\\\\\\\\\\_____/\\\\\\//________");
        reveal_strlit("      _\\///////////\\\\\\//____/\\\\\\/___________");
        reveal_strlit("       ___________\\/\\\\\\_____/\\\\\\\\\\\\\\\\\\\\\\\\\\\\\\_");
        reveal_strlit("        ___________\\///_____\\///////////////__");
    }
    s
}

} // verus!
