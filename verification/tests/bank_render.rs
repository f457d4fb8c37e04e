use vga_terminal::color::{Color, ColorCode, ScreenChar};
use vga_terminal::command::Command;
use vga_terminal::keyboard::{
    ControlKey, Key, Letter, NavigationKey, Number, PrintableKey,
};
use vga_terminal::manager::{Frame, RenderAction, VGAScreenManager};
use vga_terminal::screen::VgaScreen;
use vga_terminal::{
    SHELLS_COUNT, VGA_BUFFER_HEIGHT, VGA_BUFFER_WIDTH, VGA_COMMAND_LINE_ROW_INDEX,
    VGA_MIN_FIRST_LINE,
};

fn test_colors() -> [ColorCode; SHELLS_COUNT] {
    [
        ColorCode::new(Color::LightGreen, Color::Black),
        ColorCode::new(Color::Yellow, Color::Black),
        ColorCode::new(Color::Pink, Color::Black),
    ]
}

fn frame_row_text(frame: &Frame, y: usize) -> Vec<u8> {
    let mut text: Vec<u8> = frame.cells[y].iter().map(|c| c.ascii_character).collect();
    while text.last() == Some(&b' ') {
        text.pop();
    }
    text
}

fn type_line(manager: &mut VGAScreenManager, text: &[u8]) {
    for b in text {
        let pending = manager.write_byte_to_the_command_line(*b);
        assert!(pending.is_none());
    }
}

#[test]
fn color_codes_pack_background_and_foreground() {
    assert_eq!(ColorCode::new(Color::LightGreen, Color::Black).0, 10);
    assert_eq!(ColorCode::new(Color::White, Color::Blue).0, 0x1f);
    assert_eq!(ColorCode::new(Color::Black, Color::White).0, 0xf0);
}

#[test]
fn scancodes_decode_to_keys() {
    assert_eq!(
        Key::from_scancode(0x1E),
        Some(Key::Printable(PrintableKey::Letter(Letter::A)))
    );
    assert_eq!(
        Key::from_scancode(0x02),
        Some(Key::Printable(PrintableKey::Number(Number::N1)))
    );
    assert_eq!(Key::from_scancode(0x1C), Some(Key::Printable(PrintableKey::Enter)));
    assert_eq!(Key::from_scancode(0x48), Some(Key::Navigation(NavigationKey::Up)));
    assert_eq!(Key::from_scancode(0x4F), Some(Key::Navigation(NavigationKey::End)));
    assert_eq!(Key::from_scancode(0x1D), Some(Key::Control(ControlKey::CtrlDown)));
    assert_eq!(Key::from_scancode(0x9D), Some(Key::Control(ControlKey::CtrlUp)));
    assert_eq!(Key::from_scancode(0xFF), None);
}

#[test]
fn printable_keys_produce_their_characters() {
    assert_eq!(PrintableKey::Letter(Letter::Q).to_char(), 'q');
    assert_eq!(PrintableKey::Number(Number::N0).to_char(), '0');
    assert_eq!(PrintableKey::Space.to_char(), ' ');
    assert_eq!(PrintableKey::Enter.to_char(), '\n');
}

#[test]
fn a_fresh_bank_renders_the_prompt_line() {
    let manager = VGAScreenManager::new(&test_colors());
    let frame = manager.render_current_screen();
    assert_eq!(frame.cells.len(), VGA_BUFFER_HEIGHT);
    for row in &frame.cells {
        assert_eq!(row.len(), VGA_BUFFER_WIDTH);
    }
    assert_eq!(frame_row_text(&frame, VGA_COMMAND_LINE_ROW_INDEX), b"$>");
    assert_eq!(frame.cursor, Some((3, VGA_COMMAND_LINE_ROW_INDEX)));
    // the oldest visible row predates the banner and is all blanks
    assert_eq!(frame_row_text(&frame, 0), b"");
    // every cell carries the active terminal's color
    let color = test_colors()[0];
    for row in &frame.cells {
        for cell in row {
            assert_eq!(cell.color_code, color);
        }
    }
}

#[test]
fn the_banner_is_visible_above_the_first_prompt() {
    let manager = VGAScreenManager::new(&test_colors());
    let frame = manager.render_current_screen();
    assert_eq!(
        frame_row_text(&frame, VGA_BUFFER_HEIGHT - 2),
        "        ___________\\///_____\\///////////////__".as_bytes()
    );
    assert_eq!(frame_row_text(&frame, VGA_BUFFER_HEIGHT - 11), b"");
}

#[test]
fn terminal_switch_scenario() {
    let mut manager = VGAScreenManager::new(&test_colors());
    type_line(&mut manager, b"abc");
    manager.change_terminal(1);
    type_line(&mut manager, b"defg");

    let frame1 = manager.render_current_screen();
    assert_eq!(frame_row_text(&frame1, VGA_COMMAND_LINE_ROW_INDEX), b"$> defg");
    assert_eq!(frame1.cells[0][0].color_code, test_colors()[1]);
    assert_eq!(frame1.cursor, Some((7, VGA_COMMAND_LINE_ROW_INDEX)));

    // switching back reproduces terminal 0's state, untouched by the interlude
    manager.change_terminal(0);
    let frame0 = manager.render_current_screen();
    assert_eq!(frame_row_text(&frame0, VGA_COMMAND_LINE_ROW_INDEX), b"$> abc");
    assert_eq!(frame0.cells[0][0].color_code, test_colors()[0]);
    assert_eq!(frame0.cursor, Some((6, VGA_COMMAND_LINE_ROW_INDEX)));

    // an out-of-range terminal number is ignored
    manager.change_terminal(7);
    let same = manager.render_current_screen();
    assert_eq!(frame_row_text(&same, VGA_COMMAND_LINE_ROW_INDEX), b"$> abc");
}

#[test]
fn scroll_and_return_scenario() {
    let mut manager = VGAScreenManager::new(&test_colors());
    for _ in 0..3 {
        assert_eq!(manager.navigate(NavigationKey::Up), RenderAction::Redraw);
    }
    let scrolled = manager.render_current_screen();
    assert_eq!(scrolled.cursor, None);

    // typing snaps the viewport back and the byte lands in the live row
    let pending = manager.write_byte_to_the_command_line(b'q');
    assert!(pending.is_none());
    let back = manager.render_current_screen();
    assert_eq!(back.cursor, Some((4, VGA_COMMAND_LINE_ROW_INDEX)));
    assert_eq!(frame_row_text(&back, VGA_COMMAND_LINE_ROW_INDEX), b"$> q");
}

#[test]
fn scrolling_shifts_the_visible_window() {
    let mut manager = VGAScreenManager::new(&test_colors());
    let bottom = manager.render_current_screen();
    assert_eq!(manager.navigate(NavigationKey::Up), RenderAction::Redraw);
    let up_one = manager.render_current_screen();
    // every visible row moved down by one screen position
    for y in 1..VGA_BUFFER_HEIGHT {
        assert_eq!(frame_row_text(&up_one, y), frame_row_text(&bottom, y - 1));
    }
    assert_eq!(manager.navigate(NavigationKey::Down), RenderAction::Redraw);
    let back = manager.render_current_screen();
    for y in 0..VGA_BUFFER_HEIGHT {
        assert_eq!(frame_row_text(&back, y), frame_row_text(&bottom, y));
    }
    // at the bottom, scrolling further down does nothing
    assert_eq!(manager.navigate(NavigationKey::Down), RenderAction::Keep);
}

#[test]
fn scrolling_stops_at_the_top_of_the_history() {
    let mut manager = VGAScreenManager::new(&test_colors());
    for _ in 0..VGA_MIN_FIRST_LINE {
        assert_eq!(manager.navigate(NavigationKey::Up), RenderAction::Redraw);
    }
    assert_eq!(manager.navigate(NavigationKey::Up), RenderAction::Keep);
}

#[test]
fn cursor_keys_reposition_without_redraw_when_not_scrolled() {
    let mut manager = VGAScreenManager::new(&test_colors());
    type_line(&mut manager, b"ab");
    assert_eq!(manager.navigate(NavigationKey::Left), RenderAction::RepositionCursor);
    let frame = manager.render_current_screen();
    assert_eq!(frame.cursor, Some((4, VGA_COMMAND_LINE_ROW_INDEX)));
    // a horizontal key while scrolled returns to the live line with a redraw
    assert_eq!(manager.navigate(NavigationKey::Up), RenderAction::Redraw);
    assert_eq!(manager.navigate(NavigationKey::Right), RenderAction::Redraw);
    let after = manager.render_current_screen();
    assert_eq!(after.cursor, Some((5, VGA_COMMAND_LINE_ROW_INDEX)));
}

#[test]
fn backspace_reports_the_repair_run() {
    let mut manager = VGAScreenManager::new(&test_colors());
    type_line(&mut manager, b"hi");
    let (cells, start) = manager.handle_backspace().expect("a byte was removed");
    assert_eq!(start, 4);
    assert_eq!(cells.len(), 1);
    assert_eq!(
        cells[0],
        ScreenChar { ascii_character: b' ', color_code: test_colors()[0] }
    );
    let frame = manager.render_current_screen();
    assert_eq!(frame_row_text(&frame, VGA_COMMAND_LINE_ROW_INDEX), b"$> h");
    // at the prompt there is nothing to remove
    assert!(manager.handle_backspace().is_some());
    assert!(manager.handle_backspace().is_none());
}

#[test]
fn commands_flow_through_the_bank() {
    let mut manager = VGAScreenManager::new(&test_colors());
    type_line(&mut manager, b"pks");
    let pending = manager.write_byte_to_the_command_line(b'\n');
    assert_eq!(pending, Some(Command::PrintKernelStack));
    manager.write_byte(b'0');
    manager.write_byte(b'x');
    manager.finish_command();
    let frame = manager.render_current_screen();
    assert_eq!(frame_row_text(&frame, VGA_COMMAND_LINE_ROW_INDEX - 1), b"0x");
    assert_eq!(frame_row_text(&frame, VGA_COMMAND_LINE_ROW_INDEX), b"$>");
}

#[test]
fn reset_scrolling_mode_returns_to_the_live_line() {
    let mut manager = VGAScreenManager::new(&test_colors());
    assert_eq!(manager.navigate(NavigationKey::Up), RenderAction::Redraw);
    manager.reset_scrolling_mode();
    let frame = manager.render_current_screen();
    assert_eq!(frame.cursor, Some((3, VGA_COMMAND_LINE_ROW_INDEX)));
}

#[test]
fn a_single_screen_scrolls_and_reports_cursor_state() {
    let mut screen = VgaScreen::new(ColorCode::new(Color::LightGreen, Color::Black));
    assert_eq!(screen.first_line(), VGA_MIN_FIRST_LINE);
    assert!(!screen.is_scrolling());
    assert_eq!(screen.render_cursor(), Some((3, VGA_COMMAND_LINE_ROW_INDEX)));
    assert_eq!(screen.get_cursor().x, 3);
    assert_eq!(screen.get_cursor().y, VGA_COMMAND_LINE_ROW_INDEX);

    assert!(screen.scroll_up());
    assert!(screen.is_scrolling());
    assert_eq!(screen.first_line(), VGA_MIN_FIRST_LINE - 1);
    assert_eq!(screen.render_cursor(), None);

    assert!(screen.scroll_down());
    assert!(!screen.is_scrolling());
    assert!(!screen.scroll_down());

    // the toggles report only actual changes
    assert!(screen.enable_scrolling());
    assert!(!screen.enable_scrolling());
    assert!(screen.disable_scrolling());
    assert!(!screen.disable_scrolling());

    let window = screen.get_data();
    assert_eq!(window.len(), VGA_BUFFER_HEIGHT);
    assert_eq!(window[VGA_BUFFER_HEIGHT - 1].data(), b"$> ");
}
