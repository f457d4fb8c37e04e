//! The closed command set: a finished input line, stripped of the fixed
//! prompt, is compared byte-for-byte against a fixed table of names. An
//! unrecognized line parses to nothing and the shell reports it to the user.

use crate::data_structure::StackVec;
use crate::{SHELL_PROMPT_LENGTH, VGA_BUFFER_WIDTH};
use vstd::prelude::*;

verus! {

#[derive(Debug, Clone, Copy, PartialEq, Eq, Structural)]
pub enum Command {
    Reboot,
    Clear,
    PowerOff,
    PrintKernelStack,
    PrintTestStack,
}

/// The name that triggers `Command::Reboot`.
pub open spec fn name_reboot() -> Seq<u8> {
    seq![114, 101, 98, 111, 111, 116]
}

/// The name that triggers `Command::Clear`.
pub open spec fn name_clear() -> Seq<u8> {
    seq![99, 108, 101, 97, 114]
}

/// The name that triggers `Command::PowerOff`.
pub open spec fn name_poweroff() -> Seq<u8> {
    seq![112, 111, 119, 101, 114, 111, 102, 102]
}

/// The name that triggers `Command::PrintKernelStack`.
pub open spec fn name_print_kernel_stack() -> Seq<u8> {
    seq![112, 107, 115]
}

/// The name that triggers `Command::PrintTestStack`.
pub open spec fn name_print_test_stack() -> Seq<u8> {
    seq![112, 116, 115]
}

/// What a finished command line parses to: the bytes after the fixed prompt,
/// compared against the name table by exact equality. A line too short to
/// even hold the prompt parses to nothing.
pub open spec fn spec_parse(line: Seq<u8>) -> Option<Command> {
    if line.len() < SHELL_PROMPT_LENGTH {
        None
    } else {
        let cmd = line.subrange(SHELL_PROMPT_LENGTH as int, line.len() as int);
        if cmd == name_reboot() {
            Some(Command::Reboot)
        } else if cmd == name_clear() {
            Some(Command::Clear)
        } else if cmd == name_poweroff() {
            Some(Command::PowerOff)
        } else if cmd == name_print_kernel_stack() {
            Some(Command::PrintKernelStack)
        } else if cmd == name_print_test_stack() {
            Some(Command::PrintTestStack)
        } else {
            None
        }
    }
}

fn is_reboot(s: &[u8]) -> (r: bool)
    ensures
        r == (s@ == name_reboot()),
{
    let r = s.len() == 6 && s[0] == 114 && s[1] == 101 && s[2] == 98 && s[3] == 111 && s[4]
        == 111 && s[5] == 116;
    proof {
        if r {
            assert(s@ =~= name_reboot());
        } else {
            assert(!(s@ =~= name_reboot()));
        }
    }
    r
}

fn is_clear(s: &[u8]) -> (r: bool)
    ensures
        r == (s@ == name_clear()),
{
    let r = s.len() == 5 && s[0] == 99 && s[1] == 108 && s[2] == 101 && s[3] == 97 && s[4]
        == 114;
    proof {
        if r {
            assert(s@ =~= name_clear());
        } else {
            assert(!(s@ =~= name_clear()));
        }
    }
    r
}

fn is_poweroff(s: &[u8]) -> (r: bool)
    ensures
        r == (s@ == name_poweroff()),
{
    let r = s.len() == 8 && s[0] == 112 && s[1] == 111 && s[2] == 119 && s[3] == 101 && s[4]
        == 114 && s[5] == 111 && s[6] == 102 && s[7] == 102;
    proof {
        if r {
            assert(s@ =~= name_poweroff());
        } else {
            assert(!(s@ =~= name_poweroff()));
        }
    }
    r
}

fn is_print_kernel_stack(s: &[u8]) -> (r: bool)
    ensures
        r == (s@ == name_print_kernel_stack()),
{
    let r = s.len() == 3 && s[0] == 112 && s[1] == 107 && s[2] == 115;
    proof {
        if r {
            assert(s@ =~= name_print_kernel_stack());
        } else {
            assert(!(s@ =~= name_print_kernel_stack()));
        }
    }
    r
}

fn is_print_test_stack(s: &[u8]) -> (r: bool)
    ensures
        r == (s@ == name_print_test_stack()),
{
    let r = s.len() == 3 && s[0] == 112 && s[1] == 116 && s[2] == 115;
    proof {
        if r {
            assert(s@ =~= name_print_test_stack());
        } else {
            assert(!(s@ =~= name_print_test_stack()));
        }
    }
    r
}

impl Command {
    /// Recognizes a finished command line. Returns `None` — never panics —
    /// when the line holds no known command name after the prompt, or is too
    /// short to hold the prompt at all.
    pub fn try_from(value: &StackVec<u8, VGA_BUFFER_WIDTH>) -> (r: Option<Command>)
        requires
            value.well_formed(),
        ensures
            r == spec_parse(value@),
    {
        let len = value.len();
        if len < SHELL_PROMPT_LENGTH {
            return None;
        }
        proof {
            value.lemma_raw_is_padded_content();
        }
        let cmd = value.slice(SHELL_PROMPT_LENGTH..len);
        proof {
            assert(cmd@ =~= value@.subrange(SHELL_PROMPT_LENGTH as int, value@.len() as int));
        }
        if is_reboot(cmd) {
            Some(Command::Reboot)
        } else if is_clear(cmd) {
            Some(Command::Clear)
        } else if is_poweroff(cmd) {
            Some(Command::PowerOff)
        } else if is_print_kernel_stack(cmd) {
            Some(Command::PrintKernelStack)
        } else if is_print_test_stack(cmd) {
            Some(Command::PrintTestStack)
        } else {
            None
        }
    }
}

} // verus!
