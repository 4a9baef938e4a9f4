use terminal_core::terminal::cell::{Cell, CellAttrs, DEFAULT_BG, DEFAULT_FG};
use terminal_core::terminal::colors;
use terminal_core::terminal::parser::TerminalParser;
use terminal_core::terminal::renderer::{RenderLine, Renderer};
use terminal_core::terminal::screen::Screen;

#[test]
fn test_cell_default() {
    let cell = Cell::default();
    assert_eq!(cell.c, ' ');
    assert!(cell.is_empty());
}

#[test]
fn test_cell_attrs() {
    let mut attrs = CellAttrs::new();
    assert!(attrs.is_default());

    attrs.set_bold(true);
    assert!(attrs.bold());
    assert!(!attrs.is_default());

    attrs.set_italic(true);
    assert!(attrs.bold());
    assert!(attrs.italic());

    attrs.reset();
    assert!(attrs.is_default());
}

#[test]
fn test_attr_flags_are_independent() {
    let mut attrs = CellAttrs::new();
    attrs.set_underline(true);
    attrs.set_hidden(true);
    attrs.set_underline(false);
    assert!(!attrs.underline());
    assert!(attrs.hidden());
    assert!(!attrs.bold() && !attrs.dim() && !attrs.blink() && !attrs.inverse() && !attrs.strikethrough());
}

#[test]
fn test_ansi_colors() {
    assert_eq!(colors::ansi_color(0), colors::BLACK);
    assert_eq!(colors::ansi_color(1), colors::RED);
    assert_eq!(colors::ansi_color(15), colors::BRIGHT_WHITE);
}

#[test]
fn test_ansi_palette_cube_and_gray() {
    assert_eq!(colors::ansi_color(16), 0xFF000000);
    assert_eq!(colors::ansi_color(231), 0xFFFFFFFF);
    assert_eq!(colors::ansi_color(196), 0xFFFF0000);
    assert_eq!(colors::ansi_color(232), 0xFF080808);
    assert_eq!(colors::ansi_color(255), 0xFFEEEEEE);
}

#[test]
fn test_cell_styled_and_reset() {
    let mut attrs = CellAttrs::new();
    attrs.set_bold(true);
    let mut cell = Cell::styled('x', colors::RED, colors::BLUE, attrs);
    assert!(!cell.is_empty());
    cell.reset();
    assert_eq!(cell, Cell::new(' '));
    assert_eq!(cell.fg, DEFAULT_FG);
    assert_eq!(cell.bg, DEFAULT_BG);
}

#[test]
fn test_parser_simple_text() {
    let mut parser = TerminalParser::new(Screen::new(80, 24));
    parser.process(b"Hello, World!");

    let screen = parser.screen();
    assert_eq!(screen.get_cell(0, 0).unwrap().c, 'H');
    assert_eq!(screen.get_cell(0, 12).unwrap().c, '!');
}

#[test]
fn test_parser_newline() {
    let mut parser = TerminalParser::new(Screen::new(80, 24));
    parser.process(b"Line1\r\nLine2");

    let screen = parser.screen();
    assert_eq!(screen.get_cell(0, 0).unwrap().c, 'L');
    assert_eq!(screen.get_cell(1, 0).unwrap().c, 'L');
}

#[test]
fn test_parser_color() {
    let mut parser = TerminalParser::new(Screen::new(80, 24));
    parser.process(b"\x1b[31mRed");

    let screen = parser.screen();
    let cell = screen.get_cell(0, 0).unwrap();
    assert_eq!(cell.c, 'R');
    assert_eq!(cell.fg, colors::RED);
}

#[test]
fn test_parser_cursor_movement() {
    let mut parser = TerminalParser::new(Screen::new(80, 24));
    parser.process(b"\x1b[5;10HX");

    let screen = parser.screen();
    assert_eq!(screen.get_cell(4, 9).unwrap().c, 'X');
}

#[test]
fn test_parser_erase_to_cursor_and_save_restore() {
    let mut parser = TerminalParser::new(Screen::new(80, 24));
    parser.process(b"ABCDE\x1b[1;3H");
    assert_eq!(parser.screen().cursor(), (0, 2));
    parser.process(b"\x1b[1K\x1b[s\x1b[10;10H\x1b[u");
    let screen = parser.screen();
    assert_eq!(screen.get_cell(0, 0).unwrap().c, ' ');
    assert_eq!(screen.get_cell(0, 1).unwrap().c, ' ');
    assert_eq!(screen.get_cell(0, 2).unwrap().c, ' ');
    assert_eq!(screen.get_cell(0, 3).unwrap().c, 'D');
    assert_eq!(screen.cursor(), (0, 2));
}

#[test]
fn test_parser_erase_display_to_cursor() {
    let mut parser = TerminalParser::new(Screen::new(10, 3));
    parser.process(b"abc\r\ndef\r\nghi\x1b[2;2H\x1b[1J");
    let screen = parser.screen();
    assert_eq!(screen.get_cell(0, 2).unwrap().c, ' ');
    assert_eq!(screen.get_cell(1, 0).unwrap().c, ' ');
    assert_eq!(screen.get_cell(1, 1).unwrap().c, ' ');
    assert_eq!(screen.get_cell(1, 2).unwrap().c, 'f');
    assert_eq!(screen.get_cell(2, 0).unwrap().c, 'g');
}

#[test]
fn test_parser_on_empty_screen() {
    let mut parser = TerminalParser::new(Screen::new(0, 0));
    parser.process(b"hello\r\n\tworld\x1b[1;1H\x1b[2J");
    assert_eq!(parser.screen().cursor(), (0, 0));
    assert_eq!(parser.screen().scrollback_len(), 0);
    let mut wide = TerminalParser::new(Screen::new(0, 2));
    wide.process(b"ab\t");
    assert_eq!(wide.screen().cursor().1, 0);
}

#[test]
fn test_parser_clear() {
    let mut parser = TerminalParser::new(Screen::new(80, 24));
    parser.process(b"ABC");
    parser.process(b"\x1b[2J");

    let screen = parser.screen();
    assert_eq!(screen.get_cell(0, 0).unwrap().c, ' ');
}

#[test]
fn test_parser_chunks_match_whole() {
    let input: &[u8] = b"ab\x1b[1;32mcd\r\n\x1b[38;5;196mE\x1b[0mF\x1b[2;3Hz";
    let mut whole = TerminalParser::new(Screen::new(20, 5));
    whole.process(input);
    let mut pieces = TerminalParser::new(Screen::new(20, 5));
    for chunk in input.chunks(3) {
        pieces.process(chunk);
    }
    assert_eq!(whole.screen().to_text(), pieces.screen().to_text());
    for row in 0..5 {
        for col in 0..20 {
            assert_eq!(whole.screen().get_cell(row, col), pieces.screen().get_cell(row, col));
        }
    }
    assert_eq!(whole.screen().get_cell(1, 0).unwrap().fg, 0xFFFF0000);
    assert!(whole.screen().get_cell(0, 2).unwrap().attrs.bold());
}

#[test]
fn test_render_line() {
    let cells = vec![Cell::new('H'), Cell::new('i'), Cell::new(' ')];

    let line = RenderLine::from_cells(&cells);
    assert_eq!(line.text, "Hi ");
    assert!(!line.spans.is_empty());
}

#[test]
fn test_style_span_coalescing() {
    let cells = vec![
        Cell::styled('A', DEFAULT_FG, 0xFF000000, Default::default()),
        Cell::styled('B', DEFAULT_FG, 0xFF000000, Default::default()),
        Cell::styled('C', 0xFFFF0000, 0xFF000000, Default::default()),
    ];

    let line = RenderLine::from_cells(&cells);
    assert_eq!(line.spans.len(), 2);
    assert_eq!(line.spans[0].end, 2);
    assert_eq!(line.spans[1].start, 2);
}

#[test]
fn test_renderer_scroll() {
    let mut renderer = Renderer::new();
    assert_eq!(renderer.scroll_offset(), 0);

    renderer.scroll_up(5, 100);
    assert_eq!(renderer.scroll_offset(), 5);

    renderer.scroll_down(2);
    assert_eq!(renderer.scroll_offset(), 3);

    renderer.scroll_to_bottom();
    assert_eq!(renderer.scroll_offset(), 0);
}

#[test]
fn test_renderer_scroll_limits_and_render() {
    let mut renderer = Renderer::new();
    renderer.scroll_up(50, 10);
    assert_eq!(renderer.scroll_offset(), 10);
    renderer.scroll_down(20);
    assert_eq!(renderer.scroll_offset(), 0);

    let mut screen = Screen::new(4, 2);
    for c in "abcdefgh".chars() {
        screen.write_char(c);
    }
    // The cursor wraps eagerly after the last column, so "abcd" scrolled away.
    let out = renderer.render(&screen);
    assert_eq!(out.lines.len(), 2);
    assert_eq!(out.lines[0].text, "efgh");
    assert_eq!(out.lines[1].text, "    ");
    assert_eq!(out.total_lines, 3);
    assert!(out.cursor_visible);

    renderer.scroll_up(1, screen.scrollback_len());
    let out = renderer.render(&screen);
    assert_eq!(out.lines[0].text, "abcd");
    assert_eq!(out.lines[1].text, "efgh");
    assert!(!out.cursor_visible);
    assert_eq!(out.scroll_offset, 1);
}

#[test]
fn test_screen_creation() {
    let screen = Screen::new(80, 24);
    assert_eq!(screen.size(), (80, 24));
    assert_eq!(screen.cursor(), (0, 0));
}

#[test]
fn test_write_char() {
    let mut screen = Screen::new(10, 5);
    screen.write_char('H');
    screen.write_char('i');

    assert_eq!(screen.cursor(), (0, 2));
    assert_eq!(screen.get_cell(0, 0).unwrap().c, 'H');
    assert_eq!(screen.get_cell(0, 1).unwrap().c, 'i');
}

#[test]
fn test_line_wrap() {
    let mut screen = Screen::new(5, 3);
    for c in "Hello World".chars() {
        screen.write_char(c);
    }

    assert_eq!(screen.get_cell(0, 0).unwrap().c, 'H');
    assert_eq!(screen.get_cell(0, 4).unwrap().c, 'o');
    assert_eq!(screen.get_cell(1, 0).unwrap().c, ' ');
    assert_eq!(screen.get_cell(1, 1).unwrap().c, 'W');
}

#[test]
fn test_scroll() {
    let mut screen = Screen::new(5, 2);
    screen.write_char('A');
    screen.newline();
    screen.write_char('B');
    screen.newline();
    screen.write_char('C');

    assert_eq!(screen.scrollback_len(), 1);
}

#[test]
fn test_scrollback_index_past_oldest_is_none() {
    let mut screen = Screen::new(5, 2);
    screen.write_char('A');
    screen.newline();
    screen.write_char('B');
    screen.newline();
    screen.write_char('C');
    assert_eq!(screen.get_scrollback_line(0).unwrap()[0].c, 'A');
    assert!(screen.get_scrollback_line(1).is_none());
    assert!(screen.get_scrollback_line(usize::MAX).is_none());
}

#[test]
fn test_resize() {
    let mut screen = Screen::new(10, 5);
    screen.set_cursor(4, 9);
    screen.resize(5, 3);

    assert_eq!(screen.size(), (5, 3));
    assert_eq!(screen.cursor(), (2, 4));
}

#[test]
fn test_get_cell_mut_writes_through() {
    let mut screen = Screen::new(3, 2);
    if let Some(cell) = screen.get_cell_mut(1, 2) {
        cell.c = 'Z';
    }
    assert_eq!(screen.get_cell(1, 2).unwrap().c, 'Z');
    assert!(screen.get_cell_mut(2, 0).is_none());
    assert!(screen.get_cell(0, 3).is_none());
}

#[test]
fn test_clear_operations() {
    let mut screen = Screen::new(4, 2);
    for c in "abcdef".chars() {
        screen.write_char(c);
    }
    screen.set_cursor(0, 2);
    screen.clear_line_from_cursor();
    assert_eq!(screen.get_cell(0, 1).unwrap().c, 'b');
    assert_eq!(screen.get_cell(0, 2).unwrap().c, ' ');
    screen.clear_to_end();
    assert_eq!(screen.get_cell(1, 0).unwrap().c, ' ');
    screen.clear();
    assert_eq!(screen.cursor(), (0, 2));
    assert_eq!(screen.get_cell(0, 0).unwrap().c, ' ');
}

#[test]
fn test_renderer_blink_and_offset() {
    let mut renderer = Renderer::new();
    let screen = Screen::new(3, 1);
    assert!(renderer.render(&screen).cursor_visible);
    renderer.toggle_cursor_blink();
    assert!(!renderer.render(&screen).cursor_visible);
    renderer.toggle_cursor_blink();
    renderer.set_scroll_offset(7);
    assert_eq!(renderer.scroll_offset(), 7);
    assert!(!renderer.render(&screen).cursor_visible);
}
