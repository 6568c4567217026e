//! Layout of the conversation as styled lines: a label per message and its
//! text wrapped into a bubble, plus the status line.

use vstd::prelude::*;
use crate::bridge::{str_width, str_columns};
use crate::text::{wrap_message, wrapped_lines, views, spaces, push_text, push_decimal, decimal};
use crate::ui::message::{Message, Role};

verus! {

/// Colors used on the chat screen.
#[derive(Clone, Copy, Debug, PartialEq, Eq, Structural)]
pub enum Color {
    Yellow,
    Green,
    Cyan,
    White,
    Blue,
    DarkGray,
}

/// Foreground, background and boldness of a span; `None` keeps the
/// terminal's default.
#[derive(Clone, Copy, Debug, PartialEq, Eq, Structural)]
pub struct Style {
    pub fg: Option<Color>,
    pub bg: Option<Color>,
    pub bold: bool,
}

/// Horizontal alignment of a line.
#[derive(Clone, Copy, Debug, PartialEq, Eq, Structural)]
pub enum Alignment {
    Left,
    Right,
}

/// A piece of text with one style.
#[derive(Clone, Debug, PartialEq, Eq)]
pub struct StyledSpan {
    pub text: String,
    pub style: Style,
}

/// A line of styled spans.
#[derive(Clone, Debug, PartialEq, Eq)]
pub struct StyledLine {
    pub spans: Vec<StyledSpan>,
    pub alignment: Alignment,
}

/// The view of a span: its text and style.
pub open spec fn span_view(s: StyledSpan) -> (Seq<char>, Style) {
    (s.text@, s.style)
}

/// The view of a line: its spans and alignment.
pub open spec fn line_view(l: StyledLine) -> (Seq<(Seq<char>, Style)>, Alignment) {
    (l.spans@.map_values(|s: StyledSpan| span_view(s)), l.alignment)
}

/// The views of a list of lines.
pub open spec fn lines_view(ls: Seq<StyledLine>) -> Seq<(Seq<(Seq<char>, Style)>, Alignment)> {
    ls.map_values(|l: StyledLine| line_view(l))
}

/// The text of a line: its spans one after another.
pub open spec fn line_text(spans: Seq<(Seq<char>, Style)>) -> Seq<char>
    decreases spans.len(),
{
    if spans.len() == 0 {
        Seq::empty()
    } else {
        line_text(spans.drop_last()) + spans.last().0
    }
}

impl StyledLine {
    /// The text of the line without its styles.
    pub fn to_string(&self) -> (r: String)
        ensures
            r@ == line_text(line_view(*self).0),
    {
        let mut r = String::new();
        let n = self.spans.len();
        for i in 0..n
            invariant
                n == self.spans.len(),
                r@ == line_text(line_view(*self).0.take(i as int)),
        {
            assert(line_view(*self).0.take(i + 1).drop_last() =~= line_view(*self).0.take(i as int));
            push_text(&mut r, self.spans[i].text.as_str());
        }
        assert(line_view(*self).0.take(n as int) =~= line_view(*self).0);
        r
    }
}

/// The plain style.
pub open spec fn plain() -> Style {
    Style { fg: None, bg: None, bold: false }
}

/// The label above a message of `role`.
pub open spec fn label_name(role: Role) -> Seq<char> {
    match role {
        Role::System => "● 系统"@,
        Role::User => "你 ●"@,
        Role::Assistant => "● AI"@,
    }
}

/// The style of the label of a message of `role`.
pub open spec fn label_style(role: Role) -> Style {
    let color = match role {
        Role::System => Color::Yellow,
        Role::User => Color::Green,
        Role::Assistant => Color::Cyan,
    };
    Style { fg: Some(color), bg: None, bold: true }
}

/// The style of the bubble of a message of `role`.
pub open spec fn bubble_style(role: Role) -> Style {
    match role {
        Role::System => Style { fg: Some(Color::Yellow), bg: None, bold: false },
        Role::User => Style { fg: Some(Color::White), bg: Some(Color::Blue), bold: false },
        Role::Assistant => Style { fg: Some(Color::White), bg: Some(Color::DarkGray), bold: false },
    }
}

/// User messages stand on the right, the others on the left.
pub open spec fn alignment_of(role: Role) -> Alignment {
    match role {
        Role::User => Alignment::Right,
        _ => Alignment::Left,
    }
}

/// Three quarters of `width`, rounded up, with the product saturating at
/// `usize::MAX`; at least 1 and at most `width`.
pub open spec fn bubble_max(width: nat) -> nat {
    let tripled: nat = if width * 3 > usize::MAX { usize::MAX as nat } else { width * 3 };
    let quarter: nat = ((tripled + 3) / 4) as nat;
    let at_least_one: nat = if quarter < 1 { 1 } else { quarter };
    if at_least_one < width { at_least_one } else { width }
}

/// The widest bubble allowed in `width` columns.
pub fn bubble_max_width(width: usize) -> (r: usize)
    ensures
        r == bubble_max(width as nat),
{
    let tripled: usize = if width > usize::MAX / 3 { usize::MAX } else { width * 3 };
    let quarter: usize = tripled / 4 + if tripled % 4 != 0 { 1 } else { 0 };
    let at_least_one: usize = if quarter < 1 { 1 } else { quarter };
    if at_least_one < width { at_least_one } else { width }
}

/// A margin of one column between a bubble and the edge, if there is room.
pub open spec fn side_margin(width: nat) -> nat {
    if width > 2 { 1 } else { 0 }
}

/// Columns of the bubble including its padding.
pub open spec fn outer_width(width: nat) -> nat {
    let side = side_margin(width);
    bubble_max(if width >= side { (width - side) as nat } else { 0 })
}

/// One column of padding on each side of the text, if the bubble has room.
pub open spec fn padding_of(width: nat) -> nat {
    if outer_width(width) >= 3 { 1 } else { 0 }
}

/// Columns left for the text of a bubble: at least one.
pub open spec fn content_width(width: nat) -> nat {
    let outer = outer_width(width);
    let inner: nat = if outer >= 2 * padding_of(width) { (outer - 2 * padding_of(width)) as nat } else { 0 };
    if inner < 1 { 1 } else { inner }
}

/// The widest of the lines, by the columns `unicode-width` gives strings.
pub open spec fn widest(lines: Seq<Seq<char>>) -> nat
    decreases lines.len(),
{
    if lines.len() == 0 {
        0
    } else {
        let rest = widest(lines.drop_last());
        let last = str_columns(lines.last()) as nat;
        if last > rest { last } else { rest }
    }
}

/// Text lines of the bubble of `content` in a view `width` columns wide.
pub open spec fn bubble_text_lines(content: Seq<char>, width: nat) -> Seq<Seq<char>> {
    wrapped_lines(content, content_width(width))
}

/// Columns of the widest text line of a bubble, at most the content width.
pub open spec fn bubble_text_width(content: Seq<char>, width: nat) -> nat {
    let w = widest(bubble_text_lines(content, width));
    if w < content_width(width) { w } else { content_width(width) }
}

/// `n` spaces.
pub open spec fn blank(n: nat) -> Seq<char> {
    Seq::new(n, |i: int| ' ')
}

/// The widest of the widths.
pub open spec fn widest_of(ws: Seq<usize>) -> nat
    decreases ws.len(),
{
    if ws.len() == 0 {
        0
    } else {
        let rest = widest_of(ws.drop_last());
        let last = ws.last() as nat;
        if last > rest { last } else { rest }
    }
}

/// With each line's own width, the widest width is the widest line.
pub proof fn lemma_widest_of_lines(lines: Seq<Seq<char>>, ws: Seq<usize>)
    requires
        ws.len() == lines.len(),
        forall|i: int| 0 <= i < lines.len() ==> ws[i] == str_columns(#[trigger] lines[i]),
    ensures
        widest(lines) == widest_of(ws),
    decreases lines.len(),
{
    if lines.len() > 0 {
        let (a, b) = (lines.drop_last(), ws.drop_last());
        assert forall|i: int| 0 <= i < a.len() implies b[i] == str_columns(#[trigger] a[i]) by {
            assert(a[i] == lines[i] && b[i] == ws[i]);
        }
        lemma_widest_of_lines(a, b);
        assert(ws.last() == str_columns(lines.last()));
    }
}

/// One line of a bubble, for a text `text_width` columns wide: the text
/// padded on both sides so that all lines of the bubble are `bubble_width`
/// wide, with the side margin towards the edge.
pub open spec fn bubble_line_w(role: Role, text: Seq<char>, text_width: nat, bubble_width: nat, width: nat) -> (Seq<(Seq<char>, Style)>, Alignment) {
    let cw = content_width(width);
    let pad = padding_of(width);
    let visual: nat = if text_width < cw { text_width } else { cw };
    let trailing: nat = (if bubble_width >= visual { (bubble_width - visual) as nat } else { 0nat }) + pad;
    let bubble = (blank(pad) + text + blank(trailing), bubble_style(role));
    let margin = (blank(side_margin(width)), plain());
    let spans = match role {
        Role::User => seq![bubble, margin],
        _ => seq![margin, bubble],
    };
    (spans, alignment_of(role))
}

/// One line of a bubble, the text as wide as `unicode-width` says.
pub open spec fn bubble_line(role: Role, text: Seq<char>, bubble_width: nat, width: nat) -> (Seq<(Seq<char>, Style)>, Alignment) {
    bubble_line_w(role, text, str_columns(text) as nat, bubble_width, width)
}

/// The bubble lines of texts whose widths are `widths`: every line padded to
/// the widest text, but no wider than the content width.
pub open spec fn bubble_lines_by(role: Role, texts: Seq<Seq<char>>, widths: Seq<usize>, width: nat) -> Seq<(Seq<(Seq<char>, Style)>, Alignment)> {
    let w = widest_of(widths);
    let bw = if w < content_width(width) { w } else { content_width(width) };
    Seq::new(texts.len(), |i: int| bubble_line_w(role, texts[i], widths[i] as nat, bw, width))
}

/// The lines of one message: its label, then its bubble.
pub open spec fn message_lines(m: Message, width: nat) -> Seq<(Seq<(Seq<char>, Style)>, Alignment)> {
    let label = (seq![(label_name(m.role), label_style(m.role))], alignment_of(m.role));
    let texts = bubble_text_lines(m.content@, width);
    let bw = bubble_text_width(m.content@, width);
    seq![label] + texts.map_values(|t: Seq<char>| bubble_line(m.role, t, bw, width))
}

/// The lines of a conversation: the lines of each message in order, with
/// no blank line between messages.
pub open spec fn conversation_lines(ms: Seq<Message>, width: nat) -> Seq<(Seq<(Seq<char>, Style)>, Alignment)>
    decreases ms.len(),
{
    if ms.len() == 0 {
        Seq::empty()
    } else {
        conversation_lines(ms.drop_last(), width) + message_lines(ms.last(), width)
    }
}

fn label_of(role: Role) -> (r: StyledLine)
    ensures
        line_view(r) == (seq![(label_name(role), label_style(role))], alignment_of(role)),
{
    let (name, color, alignment) = match role {
        Role::System => ("● 系统", Color::Yellow, Alignment::Left),
        Role::User => ("你 ●", Color::Green, Alignment::Right),
        Role::Assistant => ("● AI", Color::Cyan, Alignment::Left),
    };
    let mut spans: Vec<StyledSpan> = Vec::new();
    spans.push(StyledSpan { text: name.to_owned(), style: Style { fg: Some(color), bg: None, bold: true } });
    let r = StyledLine { spans, alignment };
    assert(line_view(r).0 =~= seq![(label_name(role), label_style(role))]);
    r
}

fn bubble_style_of(role: Role) -> (s: Style)
    ensures
        s == bubble_style(role),
{
    match role {
        Role::System => Style { fg: Some(Color::Yellow), bg: None, bold: false },
        Role::User => Style { fg: Some(Color::White), bg: Some(Color::Blue), bold: false },
        Role::Assistant => Style { fg: Some(Color::White), bg: Some(Color::DarkGray), bold: false },
    }
}

/// The bubble lines of `texts`, already wrapped, in a view `width` columns
/// wide; `text_widths[i]` is taken as the display width of `texts[i]`.
pub fn bubble_layout(role: Role, texts: &[String], text_widths: &[usize], width: usize) -> (r: Vec<StyledLine>)
    requires
        text_widths@.len() == texts@.len(),
    ensures
        lines_view(r@) == bubble_lines_by(role, views(texts@), text_widths@, width as nat),
{
    let side: usize = if width > 2 { 1 } else { 0 };
    let outer = bubble_max_width(if width >= side { width - side } else { 0 });
    let padding: usize = if outer >= 3 { 1 } else { 0 };
    let inner: usize = if outer >= 2 * padding { outer - 2 * padding } else { 0 };
    let cw: usize = if inner < 1 { 1 } else { inner };
    assert(cw == content_width(width as nat));
    let ghost tv = views(texts@);
    let ghost tws = text_widths@;
    let mut widest_seen: usize = 0;
    let n = texts.len();
    for i in 0..n
        invariant
            n == texts@.len() == tws.len(),
            tws == text_widths@,
            widest_seen == widest_of(tws.take(i as int)),
    {
        assert(tws.take(i + 1).drop_last() =~= tws.take(i as int));
        let w = text_widths[i];
        if w > widest_seen {
            widest_seen = w;
        }
    }
    assert(tws.take(n as int) =~= tws);
    let bubble_width: usize = if widest_seen < cw { widest_seen } else { cw };
    let ghost expected = bubble_lines_by(role, tv, tws, width as nat);
    let mut lines: Vec<StyledLine> = Vec::new();
    assert(lines_view(lines@) =~= expected.take(0));
    for i in 0..n
        invariant
            n == texts@.len() == tws.len() == expected.len(),
            tws == text_widths@,
            tv == views(texts@),
            expected == bubble_lines_by(role, tv, tws, width as nat),
            lines_view(lines@) == expected.take(i as int),
            cw == content_width(width as nat),
            padding == padding_of(width as nat),
            side == side_margin(width as nat),
            bubble_width == (if widest_of(tws) < cw { widest_of(tws) } else { cw as nat }),
            bubble_width <= cw,
    {
        let text = &texts[i];
        let tw = text_widths[i];
        let visual: usize = if tw < cw { tw } else { cw };
        let trailing: usize = (if bubble_width >= visual { bubble_width - visual } else { 0 }) + padding;
        let mut bubble = spaces(padding);
        push_text(&mut bubble, text.as_str());
        let tail = spaces(trailing);
        push_text(&mut bubble, tail.as_str());
        let bubble_span = StyledSpan { text: bubble, style: bubble_style_of(role) };
        let margin_span = StyledSpan {
            text: spaces(side),
            style: Style { fg: None, bg: None, bold: false },
        };
        let alignment = if let Role::User = role { Alignment::Right } else { Alignment::Left };
        let mut spans: Vec<StyledSpan> = Vec::new();
        match role {
            Role::User => {
                spans.push(bubble_span);
                spans.push(margin_span);
            },
            _ => {
                spans.push(margin_span);
                spans.push(bubble_span);
            },
        }
        let line = StyledLine { spans, alignment };
        proof {
            assert(tv[i as int] == texts@[i as int]@);
            let e = bubble_line_w(role, tv[i as int], tws[i as int] as nat, bubble_width as nat, width as nat);
            assert(line_view(line).0 =~= e.0);
            assert(expected[i as int] == e);
        }
        let ghost before = lines_view(lines@);
        lines.push(line);
        assert(lines_view(lines@) =~= before.push(line_view(line)));
        assert(expected.take(i + 1) =~= expected.take(i as int).push(expected[i as int]));
    }
    assert(expected.take(n as int) =~= expected);
    lines
}

/// The lines of one message in a view `width` columns wide.
pub fn message_layout(message: &Message, width: usize) -> (r: Vec<StyledLine>)
    ensures
        lines_view(r@) == message_lines(*message, width as nat),
{
    let side: usize = if width > 2 { 1 } else { 0 };
    let outer = bubble_max_width(if width >= side { width - side } else { 0 });
    let padding: usize = if outer >= 3 { 1 } else { 0 };
    let inner: usize = if outer >= 2 * padding { outer - 2 * padding } else { 0 };
    let cw: usize = if inner < 1 { 1 } else { inner };
    assert(cw == content_width(width as nat));
    let wrapped = wrap_message(message.content.as_str(), cw);
    let ghost texts = views(wrapped@);
    let n = wrapped.len();
    let mut widths: Vec<usize> = Vec::new();
    for i in 0..n
        invariant
            n == wrapped.len(),
            texts == views(wrapped@),
            widths@.len() == i,
            forall|j: int| 0 <= j < i ==> widths@[j] == str_columns(#[trigger] texts[j]),
    {
        widths.push(str_width(wrapped[i].as_str()));
    }
    let mut lines: Vec<StyledLine> = Vec::new();
    lines.push(label_of(message.role));
    let mut bubble = bubble_layout(message.role, wrapped.as_slice(), widths.as_slice(), width);
    let ghost head = lines_view(lines@);
    let ghost tail = bubble@;
    lines.append(&mut bubble);
    proof {
        lemma_widest_of_lines(texts, widths@);
        let bw = bubble_text_width(message.content@, width as nat);
        assert(bubble_lines_by(message.role, texts, widths@, width as nat)
            =~= texts.map_values(|t: Seq<char>| bubble_line(message.role, t, bw, width as nat)));
        assert(lines_view(lines@) =~= head + lines_view(tail));
    }
    lines
}

/// The lines of a whole conversation in a view `width` columns wide.
pub fn conversation_text(messages: &[Message], width: usize) -> (r: Vec<StyledLine>)
    ensures
        lines_view(r@) == conversation_lines(messages@, width as nat),
{
    let mut lines: Vec<StyledLine> = Vec::new();
    let n = messages.len();
    for i in 0..n
        invariant
            n == messages@.len(),
            lines_view(lines@) == conversation_lines(messages@.take(i as int), width as nat),
    {
        assert(messages@.take(i + 1).drop_last() =~= messages@.take(i as int));
        assert(messages@.take(i + 1).last() == messages@[i as int]);
        let mut block = message_layout(&messages[i], width);
        let ghost before = lines@;
        let ghost added = block@;
        lines.append(&mut block);
        assert(lines_view(lines@) =~= lines_view(before) + lines_view(added));
    }
    assert(messages@.take(n as int) =~= messages@);
    lines
}

/// The state shown in the status line.
pub open spec fn status_state(streaming: bool, busy: bool) -> Seq<char> {
    if streaming { "回复中…"@ } else if busy { "思考中…"@ } else { "就绪"@ }
}

/// The number of buffered inputs, when there are any.
pub open spec fn buffered_note(count: nat) -> Seq<char> {
    if count == 0 { Seq::empty() } else { " · 已缓冲 "@ + decimal(count) + " 条"@ }
}

/// The status line: the state and buffered count in cyan, then the model
/// and the key help.
pub open spec fn status_spans(streaming: bool, busy: bool, buffered: nat, provider: Seq<char>) -> Seq<(Seq<char>, Style)> {
    seq![
        (" "@ + status_state(streaming, busy) + buffered_note(buffered) + " "@, Style { fg: Some(Color::Cyan), bg: None, bold: false }),
        ("│ "@ + provider + " │ PgUp/PgDn 滚动  Ctrl+L 清空  Esc 退出"@, plain()),
    ]
}

/// The status line of the chat screen.
pub fn status_line(streaming: bool, busy: bool, buffered: usize, provider: &str) -> (r: StyledLine)
    ensures
        line_view(r) == (status_spans(streaming, busy, buffered as nat, provider@), Alignment::Left),
{
    let mut state = String::new();
    push_text(&mut state, " ");
    if streaming {
        push_text(&mut state, "回复中…");
    } else if busy {
        push_text(&mut state, "思考中…");
    } else {
        push_text(&mut state, "就绪");
    }
    if buffered != 0 {
        push_text(&mut state, " · 已缓冲 ");
        push_decimal(&mut state, buffered);
        push_text(&mut state, " 条");
        assert(state@ =~= " "@ + status_state(streaming, busy) + buffered_note(buffered as nat));
    } else {
        assert(state@ =~= " "@ + status_state(streaming, busy) + buffered_note(buffered as nat));
    }
    assert(state@ =~= " "@ + status_state(streaming, busy) + buffered_note(buffered as nat));
    push_text(&mut state, " ");
    let mut help = String::new();
    push_text(&mut help, "│ ");
    push_text(&mut help, provider);
    push_text(&mut help, " │ PgUp/PgDn 滚动  Ctrl+L 清空  Esc 退出");
    let mut spans: Vec<StyledSpan> = Vec::new();
    spans.push(StyledSpan { text: state, style: Style { fg: Some(Color::Cyan), bg: None, bold: false } });
    spans.push(StyledSpan { text: help, style: Style { fg: None, bg: None, bold: false } });
    let r = StyledLine { spans, alignment: Alignment::Left };
    assert(line_view(r).0 =~= status_spans(streaming, busy, buffered as nat, provider@));
    r
}

} // verus!
