use open_kanojyo::text::{
    char_is_whitespace, previous_boundary, trim, visible_input_start, visible_input_start_with, wrap_message, wrap_with_widths,
};
use open_kanojyo::ui::layout::{bubble_layout, bubble_max_width, conversation_text, Alignment, Color};
use open_kanojyo::ui::message::{Message, Role};
use ratatui::{
    buffer::Buffer,
    layout::Rect,
    style::{Modifier, Style as TermStyle},
    text::{Line, Span, Text},
    widgets::{Paragraph, Widget, Wrap},
};

#[test]
fn cursor_helpers_respect_utf8() {
    assert_eq!(previous_boundary("a你", 4), Some(1));
    assert_eq!(visible_input_start("ab你好", 8, 4), 2);
}

#[test]
fn visible_input_respects_utf8() {
    assert_eq!(visible_input_start("ab你好", 8, 4), 2);
}

#[test]
fn chat_bubble_wraps_by_terminal_width() {
    assert_eq!(bubble_max_width(20), 15);
    assert_eq!(wrap_message("你好 Rust", 5), ["你好 ", "Rust"]);
    assert_eq!(
        wrap_message("第一行\n\n第三行", 10),
        ["第一行", "", "第三行"]
    );
}

fn color(c: Color) -> ratatui::style::Color {
    match c {
        Color::Yellow => ratatui::style::Color::Yellow,
        Color::Green => ratatui::style::Color::Green,
        Color::Cyan => ratatui::style::Color::Cyan,
        Color::White => ratatui::style::Color::White,
        Color::Blue => ratatui::style::Color::Blue,
        Color::DarkGray => ratatui::style::Color::DarkGray,
    }
}

fn to_text(lines: &[open_kanojyo::ui::layout::StyledLine]) -> Text<'static> {
    Text::from(
        lines
            .iter()
            .map(|line| {
                let spans: Vec<Span<'static>> = line
                    .spans
                    .iter()
                    .map(|span| {
                        let mut style = TermStyle::default();
                        if let Some(fg) = span.style.fg {
                            style = style.fg(color(fg));
                        }
                        if let Some(bg) = span.style.bg {
                            style = style.bg(color(bg));
                        }
                        if span.style.bold {
                            style = style.add_modifier(Modifier::BOLD);
                        }
                        Span::styled(span.text.clone(), style)
                    })
                    .collect();
                let alignment = match line.alignment {
                    Alignment::Left => ratatui::layout::Alignment::Left,
                    Alignment::Right => ratatui::layout::Alignment::Right,
                };
                Line::from(spans).alignment(alignment)
            })
            .collect::<Vec<_>>(),
    )
}

#[test]
fn conversation_does_not_insert_blank_lines_between_messages() {
    let messages = [
        Message::new(Role::User, "第一条"),
        Message::new(Role::Assistant, "第二条"),
    ];

    let text = to_text(&conversation_text(&messages, 80));

    assert_eq!(text.lines.len(), 4);
    assert_eq!(text.lines[0].to_string(), "你 ●");
    assert!(text.lines[1].to_string().contains("第一条"));
    assert_eq!(text.lines[2].to_string(), "● AI");
    assert!(text.lines[3].to_string().contains("第二条"));

    let area = Rect::new(0, 0, 80, 4);
    let mut buffer = Buffer::empty(area);
    Paragraph::new(text)
        .wrap(Wrap { trim: false })
        .render(area, &mut buffer);
    let rendered_rows = (0..area.height)
        .map(|y| {
            (0..area.width)
                .map(|x| buffer[(x, y)].symbol())
                .collect::<String>()
        })
        .collect::<Vec<_>>();

    assert!(rendered_rows.iter().all(|row| !row.trim().is_empty()));
    assert!(rendered_rows[0].contains('你'));
    assert!(rendered_rows[1].contains('一'));
    assert!(rendered_rows[2].contains("● AI"));
    assert!(rendered_rows[3].contains('二'));
}

#[test]
fn bubbles_are_padded_to_the_widest_line() {
    let messages = [Message::new(Role::Assistant, "ab\nabcd")];
    let lines = conversation_text(&messages, 20);
    assert_eq!(lines.len(), 3);
    assert_eq!(lines[1].to_string(), "  ab   ");
    assert_eq!(lines[2].to_string(), "  abcd ");
    assert_eq!(lines[1].spans[1].style.bg, Some(Color::DarkGray));
    let user = conversation_text(&[Message::new(Role::User, "hi")], 20);
    assert_eq!(user[1].to_string(), " hi  ");
    assert_eq!(user[1].alignment, Alignment::Right);
}

#[test]
fn bubble_width_edge_cases() {
    assert_eq!(bubble_max_width(0), 0);
    assert_eq!(bubble_max_width(1), 1);
    assert_eq!(bubble_max_width(4), 3);
    assert_eq!(bubble_max_width(usize::MAX), usize::MAX / 4 + 1);
}

#[test]
fn wrapping_zero_width_puts_each_character_on_its_own_line() {
    assert_eq!(wrap_message("abc", 0), ["a", "b", "c"]);
    assert_eq!(wrap_message("", 3), [""]);
    assert_eq!(wrap_message("a\n", 3), ["a", ""]);
}

#[test]
fn wrapping_keeps_every_character() {
    let text = "落霞与孤鹜齐飞，秋水共长天一色。\nThe quick brown fox";
    let joined: String = wrap_message(text, 7).concat();
    assert_eq!(joined, text.replace('\n', ""));
    for line in wrap_message(text, 7) {
        assert!(unicode_width::UnicodeWidthStr::width(line.as_str()) <= 7);
    }
}

#[test]
fn wide_characters_overflow_only_alone() {
    assert_eq!(wrap_message("你好", 1), ["你", "好"]);
}

#[test]
fn trim_removes_unicode_whitespace() {
    assert_eq!(trim("\u{3000} 你好 \t\n"), "你好");
    assert_eq!(trim("   "), "");
}

#[test]
fn previous_boundary_at_start_is_none() {
    assert_eq!(previous_boundary("abc", 0), None);
    assert_eq!(previous_boundary("a你", 1), Some(0));
}

#[test]
fn wrapping_follows_the_given_widths() {
    assert_eq!(wrap_with_widths("abc", &[1, 1, 1], 2), vec!["ab".to_string(), "c".to_string()]);
    assert_eq!(
        wrap_with_widths("abc", &[2, 2, 2], 2),
        vec!["a".to_string(), "b".to_string(), "c".to_string()]
    );
    assert_eq!(wrap_with_widths("a\nb", &[1, 0, 1], 5), vec!["a".to_string(), "b".to_string()]);
}

#[test]
fn visible_input_follows_the_given_widths() {
    assert_eq!(visible_input_start_with("abcd", &[1, 1, 1, 1], 4, 2), 2);
    assert_eq!(visible_input_start_with("abcd", &[1, 1, 1, 3], 4, 2), 4);
    assert_eq!(visible_input_start_with("abcd", &[1, 1, 1, 1], 4, 9), 0);
}

#[test]
fn bubbles_pad_to_the_given_widths() {
    let texts = vec!["ab".to_string(), "c".to_string()];
    let a = bubble_layout(Role::Assistant, &texts, &[2, 1], 40);
    assert_eq!(a[0].to_string().chars().count(), a[1].to_string().chars().count());
    let b = bubble_layout(Role::Assistant, &texts, &[4, 1], 40);
    assert_eq!(b[1].to_string().chars().count(), a[1].to_string().chars().count() + 2);
}

#[test]
fn whitespace_matches_std_on_every_char() {
    for u in 0..=0x10ffffu32 {
        if let Some(c) = char::from_u32(u) {
            assert_eq!(char_is_whitespace(c), c.is_whitespace(), "U+{u:04X}");
        }
    }
}
