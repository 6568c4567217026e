//! Slash commands typed into the input box.

use vstd::prelude::*;
use crate::capability::CapabilitySummary;
use crate::text::{
    text_eq, push_text, push_decimal, decimal, joined, join_strings, views, contains_text, lemma_joined_contains,
    lemma_contains_text_middle, lemma_contains_text_trans,
};

verus! {

/// A slash command.
#[derive(Clone, Copy, Debug, PartialEq, Eq, Structural)]
pub enum Command {
    Clear,
    Skills,
    Tools,
    Help,
    Quit,
    Unknown,
}

/// The command that an input line names; anything but an exact command
/// name, extra arguments included, is unknown.
pub open spec fn command_for(s: Seq<char>) -> Command {
    if s == "/clear"@ {
        Command::Clear
    } else if s == "/skill"@ {
        Command::Skills
    } else if s == "/tool"@ {
        Command::Tools
    } else if s == "/help"@ {
        Command::Help
    } else if s == "/quit"@ {
        Command::Quit
    } else {
        Command::Unknown
    }
}

/// Reads a slash command.
pub fn parse(command: &str) -> (r: Command)
    ensures
        r == command_for(command@),
{
    if text_eq(command, "/clear") {
        Command::Clear
    } else if text_eq(command, "/skill") {
        Command::Skills
    } else if text_eq(command, "/tool") {
        Command::Tools
    } else if text_eq(command, "/help") {
        Command::Help
    } else if text_eq(command, "/quit") {
        Command::Quit
    } else {
        Command::Unknown
    }
}

/// The command help.
pub const HELP: &'static str = "/clear：新开对话、取消当前生成并清除对话历史\n/skill：查看当前挂载的 Skill\n/tool：查看当前挂载的 Tool\n/help：显示命令帮助\n/quit：退出应用";

/// One line of a capability listing.
pub open spec fn capability_line(item: CapabilitySummary) -> Seq<char> {
    "- "@ + item.name@ + "："@ + item.description@
}

/// The listing of mounted capabilities of one kind, or `empty` if there
/// are none.
pub open spec fn capability_text(name: Seq<char>, items: Seq<CapabilitySummary>, empty: Seq<char>) -> Seq<char> {
    if items.len() == 0 {
        empty
    } else {
        "当前挂载的 "@ + name + "（"@ + decimal(items.len()) + "）：\n"@
            + joined(items.map_values(|i: CapabilitySummary| capability_line(i)), "\n"@)
    }
}

/// Lists the mounted capabilities of one kind with their count, one per
/// line, or returns `empty` when there are none.
pub fn capability_list(name: &str, items: &[CapabilitySummary], empty: &str) -> (r: String)
    ensures
        r@ == capability_text(name@, items@, empty@),
{
    if items.len() == 0 {
        return empty.to_owned();
    }
    let mut lines: Vec<String> = Vec::new();
    let n = items.len();
    for i in 0..n
        invariant
            n == items@.len(),
            views(lines@) == items@.map_values(|i: CapabilitySummary| capability_line(i)).take(i as int),
    {
        let mut line = String::new();
        push_text(&mut line, "- ");
        push_text(&mut line, items[i].name.as_str());
        push_text(&mut line, "：");
        push_text(&mut line, items[i].description.as_str());
        let ghost before = views(lines@);
        lines.push(line);
        assert(views(lines@) =~= before.push(line@));
    }
    assert(items@.map_values(|i: CapabilitySummary| capability_line(i)).take(n as int)
        =~= items@.map_values(|i: CapabilitySummary| capability_line(i)));
    let mut r = String::new();
    push_text(&mut r, "当前挂载的 ");
    push_text(&mut r, name);
    push_text(&mut r, "（");
    push_decimal(&mut r, n);
    push_text(&mut r, "）：\n");
    let body = join_strings(&lines, "\n");
    push_text(&mut r, body.as_str());
    r
}

/// A listing names every mounted capability: each item's line
/// `- name：description` occurs in it.
pub proof fn lemma_listing_names_every_item(kind: Seq<char>, items: Seq<CapabilitySummary>, empty: Seq<char>, k: int)
    requires
        0 <= k < items.len(),
    ensures
        contains_text(
            capability_text(kind, items, empty),
            "- "@ + items[k].name@ + "："@ + items[k].description@,
        ),
{
    let lines = items.map_values(|i: CapabilitySummary| capability_line(i));
    let header = "当前挂载的 "@ + kind + "（"@ + decimal(items.len()) + "）：\n"@;
    lemma_joined_contains(lines, "\n"@, k);
    lemma_contains_text_middle(header, joined(lines, "\n"@), Seq::empty());
    assert(header + joined(lines, "\n"@) + Seq::<char>::empty() =~= capability_text(kind, items, empty));
    lemma_contains_text_trans(capability_text(kind, items, empty), joined(lines, "\n"@), lines[k]);
}

/// A listing has one line per item: one item gives the header and its line,
/// and mounting one more item raises the count and adds exactly its line at
/// the end.
pub proof fn lemma_listing_grows_by_one_line(kind: Seq<char>, items: Seq<CapabilitySummary>, x: CapabilitySummary, empty: Seq<char>)
    ensures
        capability_text(kind, seq![x], empty)
            == "当前挂载的 "@ + kind + "（"@ + decimal(1) + "）：\n"@ + "- "@ + x.name@ + "："@ + x.description@,
        items.len() > 0 ==> capability_text(kind, items.push(x), empty)
            == "当前挂载的 "@ + kind + "（"@ + decimal(items.len() + 1) + "）：\n"@
                + capability_text(kind, items, empty).skip(
                    ("当前挂载的 "@ + kind + "（"@ + decimal(items.len()) + "）：\n"@).len() as int,
                )
                + "\n"@ + "- "@ + x.name@ + "："@ + x.description@,
{
    let one = seq![x].map_values(|i: CapabilitySummary| capability_line(i));
    assert(one =~= seq![capability_line(x)]);
    if items.len() > 0 {
        let lines = items.map_values(|i: CapabilitySummary| capability_line(i));
        let more = items.push(x).map_values(|i: CapabilitySummary| capability_line(i));
        assert(more.drop_last() =~= lines);
        assert(more.last() == capability_line(x));
        let header = "当前挂载的 "@ + kind + "（"@ + decimal(items.len()) + "）：\n"@;
        assert((header + joined(lines, "\n"@)).skip(header.len() as int) =~= joined(lines, "\n"@));
    }
}

} // verus!
