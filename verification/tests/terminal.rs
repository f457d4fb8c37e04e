use vga_terminal::command::Command;
use vga_terminal::data_structure::StackVec;
use vga_terminal::keyboard::NavigationKey;
use vga_terminal::shell::Shell;
use vga_terminal::{SHELL_BUFFER_HEIGHT, SHELL_COMMAND_LINE_ROW_INDEX, VGA_BUFFER_WIDTH};

fn row_bytes(shell: &Shell, index: usize) -> Vec<u8> {
    shell.get_data().get(index).expect("row index").data().to_vec()
}

fn live_bytes(shell: &Shell) -> Vec<u8> {
    row_bytes(shell, SHELL_COMMAND_LINE_ROW_INDEX)
}

fn type_bytes(shell: &mut Shell, text: &[u8]) {
    for b in text {
        shell.write_byte(*b);
    }
}

#[test]
fn fresh_shell_shows_the_prompt() {
    let shell = Shell::new();
    assert_eq!(live_bytes(&shell), b"$> ");
    assert_eq!(shell.cursor_position(), 3);
    assert_eq!(shell.get_data().len(), SHELL_BUFFER_HEIGHT);
}

#[test]
fn typing_and_editing_scenario() {
    let mut shell = Shell::new();
    type_bytes(&mut shell, b"clea");
    assert_eq!(shell.cursor_position(), 7);
    assert_eq!(live_bytes(&shell), b"$> clea");

    let repair = shell.handle_backspace();
    let (_, start, end) = repair.expect("backspace inside the line");
    assert_eq!(start, 6);
    assert_eq!(end, 7);
    assert_eq!(live_bytes(&shell), b"$> cle");
    assert_eq!(shell.cursor_position(), 6);

    type_bytes(&mut shell, b"ar");
    assert_eq!(live_bytes(&shell), b"$> clear");
    let pending = shell.write_byte_to_the_command_line(b'\n');
    assert!(pending.is_none());

    // the clear handler wiped the scrollback and a fresh prompt line appeared
    for i in 0..SHELL_BUFFER_HEIGHT - 1 {
        assert_eq!(row_bytes(&shell, i), b"");
    }
    assert_eq!(live_bytes(&shell), b"$> ");
    assert_eq!(shell.cursor_position(), 3);
}

#[test]
fn unknown_command_scenario() {
    let mut shell = Shell::new();
    type_bytes(&mut shell, b"xyz");
    let pending = shell.write_byte_to_the_command_line(b'\n');
    assert!(pending.is_none());
    assert_eq!(row_bytes(&shell, SHELL_BUFFER_HEIGHT - 3), b"$> xyz");
    assert_eq!(row_bytes(&shell, SHELL_BUFFER_HEIGHT - 2), b"command not found");
    assert_eq!(live_bytes(&shell), b"$> ");
    assert_eq!(shell.cursor_position(), 3);
}

#[test]
fn empty_line_is_not_a_command() {
    let mut shell = Shell::new();
    let pending = shell.write_byte_to_the_command_line(b'\n');
    assert!(pending.is_none());
    assert_eq!(row_bytes(&shell, SHELL_BUFFER_HEIGHT - 3), b"$> ");
    assert_eq!(row_bytes(&shell, SHELL_BUFFER_HEIGHT - 2), b"command not found");
    assert_eq!(live_bytes(&shell), b"$> ");
}

#[test]
fn recognized_commands_are_handed_back() {
    let mut shell = Shell::new();
    type_bytes(&mut shell, b"reboot");
    assert_eq!(shell.write_byte_to_the_command_line(b'\n'), Some(Command::Reboot));

    // the line was committed; the caller would reboot here and never return
    assert_eq!(row_bytes(&shell, SHELL_BUFFER_HEIGHT - 2), b"$> reboot");
    assert_eq!(live_bytes(&shell), b"");

    shell.finish_command();
    assert_eq!(live_bytes(&shell), b"$> ");

    type_bytes(&mut shell, b"poweroff");
    assert_eq!(shell.write_byte_to_the_command_line(b'\n'), Some(Command::PowerOff));
    shell.finish_command();

    type_bytes(&mut shell, b"pks");
    assert_eq!(shell.write_byte_to_the_command_line(b'\n'), Some(Command::PrintKernelStack));
    // a diagnostic dump would be written here, through the ordinary write path
    type_bytes(&mut shell, b"dump line");
    shell.finish_command();
    assert_eq!(row_bytes(&shell, SHELL_BUFFER_HEIGHT - 2), b"dump line");
    assert_eq!(live_bytes(&shell), b"$> ");

    type_bytes(&mut shell, b"pts");
    assert_eq!(shell.write_byte_to_the_command_line(b'\n'), Some(Command::PrintTestStack));
    shell.finish_command();
}

#[test]
fn a_fresh_shell_holds_the_banner_in_its_history() {
    let shell = Shell::new();
    let banner = [
        "____________/\\\\\\_______/\\\\\\\\\\\\\\\\\\_____",
        " __________/\\\\\\\\\\_____/\\\\\\///////\\\\\\___",
        "  ________/\\\\\\/\\\\\\____\\///______\\//\\\\\\__",
        "   ______/\\\\\\/\\/\\\\\\______________/\\\\\\/___",
        "    ____/\\\\\\/__\\/\\\\\\___________/\\\\\\//_____",
        "     __/\\\\\\\\\\\\\\\\\\\\\\\\\\\\\\\\_____/\\\\\\//________",
        "      _\\///////////\\\\\\//____/\\\\\\/___________",
        "       ___________\\/\\\\\\_____/\\\\\\\\\\\\\\\\\\\\\\\\\\\\\\_",
        "        ___________\\///_____\\///////////////__",
    ];
    let first_banner_row = SHELL_BUFFER_HEIGHT - 1 - banner.len();
    for (k, line) in banner.iter().enumerate() {
        assert_eq!(row_bytes(&shell, first_banner_row + k), line.as_bytes());
    }
    // everything above the banner is untouched history
    assert_eq!(row_bytes(&shell, first_banner_row - 1), b"");
    assert_eq!(live_bytes(&shell), b"$> ");
}

#[test]
fn print_prompt_writes_at_the_cursor() {
    let mut shell = Shell::new();
    shell.print_prompt();
    assert_eq!(live_bytes(&shell), b"$> $> ");
    assert_eq!(shell.cursor_position(), 6);
}

#[test]
fn print_header_ends_on_a_fresh_line() {
    let mut shell = Shell::new();
    shell.print_header();
    assert_eq!(shell.cursor_position(), 0);
    assert_eq!(live_bytes(&shell), b"");
}

#[test]
fn cursor_navigation_clamps_at_prompt_and_line_end() {
    let mut shell = Shell::new();
    type_bytes(&mut shell, b"ab");
    assert_eq!(shell.cursor_position(), 5);
    shell.move_cursor(NavigationKey::Right);
    assert_eq!(shell.cursor_position(), 5);
    shell.move_cursor(NavigationKey::Left);
    shell.move_cursor(NavigationKey::Left);
    assert_eq!(shell.cursor_position(), 3);
    shell.move_cursor(NavigationKey::Left);
    assert_eq!(shell.cursor_position(), 3);
    shell.move_cursor(NavigationKey::End);
    assert_eq!(shell.cursor_position(), 5);
    shell.move_cursor(NavigationKey::Home);
    assert_eq!(shell.cursor_position(), 3);
    shell.move_cursor(NavigationKey::Up);
    shell.move_cursor(NavigationKey::Down);
    assert_eq!(shell.cursor_position(), 3);
}

#[test]
fn editing_in_the_middle_of_the_line() {
    let mut shell = Shell::new();
    type_bytes(&mut shell, b"ac");
    shell.move_cursor(NavigationKey::Left);
    shell.write_byte(b'b');
    assert_eq!(live_bytes(&shell), b"$> abc");
    assert_eq!(shell.cursor_position(), 5);
}

#[test]
fn backspace_at_the_prompt_does_nothing() {
    let mut shell = Shell::new();
    assert!(shell.handle_backspace().is_none());
    assert_eq!(live_bytes(&shell), b"$> ");
    assert_eq!(shell.cursor_position(), 3);
}

#[test]
fn a_full_line_drops_further_input() {
    let mut shell = Shell::new();
    for _ in 0..VGA_BUFFER_WIDTH {
        shell.write_byte(b'a');
    }
    assert_eq!(shell.cursor_position(), VGA_BUFFER_WIDTH);
    assert_eq!(live_bytes(&shell).len(), VGA_BUFFER_WIDTH);
    shell.write_byte(b'z');
    assert_eq!(shell.cursor_position(), VGA_BUFFER_WIDTH);
    let live = live_bytes(&shell);
    assert_eq!(live.len(), VGA_BUFFER_WIDTH);
    assert!(!live.contains(&b'z'));
}

#[test]
fn unprintable_bytes_become_the_sentinel() {
    let mut shell = Shell::new();
    shell.write_byte(0x01);
    assert_eq!(live_bytes(&shell), b"$> \xfe");
    shell.write_byte(b'\t');
    assert_eq!(live_bytes(&shell), b"$> \xfe\t");
}

fn line_of(text: &[u8]) -> StackVec<u8, VGA_BUFFER_WIDTH> {
    let mut row: StackVec<u8, VGA_BUFFER_WIDTH> = StackVec::new(b' ');
    for b in text {
        assert!(row.push(*b));
    }
    row
}

#[test]
fn command_parsing_matches_exact_names_only() {
    assert_eq!(Command::try_from(&line_of(b"$> reboot")), Some(Command::Reboot));
    assert_eq!(Command::try_from(&line_of(b"$> clear")), Some(Command::Clear));
    assert_eq!(Command::try_from(&line_of(b"$> poweroff")), Some(Command::PowerOff));
    assert_eq!(Command::try_from(&line_of(b"$> pks")), Some(Command::PrintKernelStack));
    assert_eq!(Command::try_from(&line_of(b"$> pts")), Some(Command::PrintTestStack));
    assert_eq!(Command::try_from(&line_of(b"$> rebootx")), None);
    assert_eq!(Command::try_from(&line_of(b"$> reboo")), None);
    assert_eq!(Command::try_from(&line_of(b"$> ")), None);
    assert_eq!(Command::try_from(&line_of(b"$>")), None);
    assert_eq!(Command::try_from(&line_of(b"")), None);
}
