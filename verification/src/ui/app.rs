//! The state machine of the chat screen: what each key, command and worker
//! event does to the conversation, the input line and the request queue.

use vstd::prelude::*;
use std::collections::VecDeque;
use tokio::sync::mpsc::{UnboundedReceiver, UnboundedSender};
use crate::bridge::str_byte_len;
use crate::capability::CapabilitySummary;
use crate::channel::{CommandLink, try_receive, Received};
use crate::protocol::{ApplicationCommand, ApplicationEvent, ConversationEvent, CommandView};
use crate::text::{
    byte_len, byte_offset, char_index, chars_of, index_of_offset, is_boundary, lemma_byte_len_push,
    lemma_byte_offset_full, lemma_byte_offset_grows, lemma_byte_offset_next,
    lemma_char_index_of_offset, push_text, splice, string_of, trim, trimmed, utf8_len, utf8_width,
};
use crate::ui::commands::{Command, capability_list, capability_text, command_for, parse, HELP};
use crate::ui::input::{Action, KeyCode, KeyInput, MouseInput, action_for_key, key_action, mouse_action};
use crate::ui::message::{Message, Role};
use crate::ui::scroll::{ScrollState, scrolled_down, scrolled_up, resolved};
use crate::ui::layout::{
    StyledLine, conversation_text, conversation_lines, lines_view, line_view, status_line, status_spans, Alignment,
};
use crate::bridge::{str_width, str_columns};
use crate::text::{visible_input_start, visible_from, span_columns};

verus! {

/// The state of the chat screen, with strings as character sequences.
#[verifier::ext_equal]
pub struct ChatModel {
    pub messages: Seq<(Role, Seq<char>)>,
    pub input: Seq<char>,
    pub cursor: nat,
    pub buffered: Seq<Seq<char>>,
    pub busy: bool,
    pub streaming: Option<nat>,
    pub generation: u64,
    pub should_quit: bool,
    pub scroll: ScrollState,
    pub handed: Seq<(CommandView, bool)>,
    pub provider_label: Seq<char>,
    pub skills: Seq<CapabilitySummary>,
    pub tools: Seq<CapabilitySummary>,
}

/// The chat screen.
pub struct App {
    /// The conversation as shown.
    pub messages: Vec<Message>,
    /// The input line and the byte position of the cursor in it.
    pub input: String,
    pub cursor: usize,
    /// Inputs submitted while a reply was running, not yet sent.
    pub buffered_inputs: VecDeque<String>,
    /// Whether a reply is running.
    pub busy: bool,
    /// The message that the running reply streams into.
    pub streaming_message: Option<usize>,
    /// The conversation generation; events of older generations are ignored.
    pub generation: u64,
    pub should_quit: bool,
    pub conversation_scroll: ScrollState,
    pub provider_label: String,
    pub skills: Vec<CapabilitySummary>,
    pub tools: Vec<CapabilitySummary>,
    /// The channel to the worker, with the log of the commands handed to it.
    pub commands: CommandLink,
    pub events: UnboundedReceiver<ApplicationEvent>,
}

impl View for App {
    type V = ChatModel;

    open spec fn view(&self) -> ChatModel {
        ChatModel {
            messages: self.messages@.map_values(|m: Message| (m.role, m.content@)),
            input: self.input@,
            cursor: self.cursor as nat,
            buffered: self.buffered_inputs@.map_values(|s: String| s@),
            busy: self.busy,
            streaming: match self.streaming_message {
                Some(i) => Some(i as nat),
                None => None,
            },
            generation: self.generation,
            should_quit: self.should_quit,
            scroll: self.conversation_scroll,
            handed: self.commands.handed(),
            provider_label: self.provider_label@,
            skills: self.skills@,
            tools: self.tools@,
        }
    }
}

/// The greeting the conversation starts with.
pub open spec fn greeting() -> Seq<char> {
    "你好，我是 OpenKanojyo。输入消息并按 Enter 开始对话，/help 查看命令。"@
}

/// The message shown when a chat could not be handed to the worker.
pub open spec fn worker_gone() -> Seq<char> {
    "后台任务已停止，请退出并重新启动应用。"@
}

/// The error that ends a running reply when the worker is gone.
pub open spec fn worker_stopped() -> Seq<char> {
    "请求失败：后台任务已停止，请重新启动应用。"@
}

/// The notice after `/clear`.
pub open spec fn cleared_notice() -> Seq<char> {
    "已新开对话。"@
}

/// The notice for an unknown command.
pub open spec fn unknown_notice() -> Seq<char> {
    "未知命令或多余参数，请输入 /help 查看用法。"@
}

/// The notice when no skill is mounted.
pub open spec fn no_skills_notice() -> Seq<char> {
    "当前未挂载 Skill。可通过 AGENT_ENABLE_SKILLS=true 启用内置 Skill。"@
}

/// The notice when no tool is mounted.
pub open spec fn no_tools_notice() -> Seq<char> {
    "当前未挂载 Tool。可通过 AGENT_ENABLE_SKILLS=true 启用 Skill 加载器，或通过 AGENT_ENABLE_TOOLS=true 启用 shell。"@
}

/// The input line is split at a character boundary by the cursor.
pub open spec fn well_formed(m: ChatModel) -> bool {
    is_boundary(m.input, m.cursor as int)
}

/// The character index of the cursor.
pub open spec fn caret(m: ChatModel) -> int {
    char_index(m.input, m.cursor as int)
}

/// The scroll state set to follow new text.
pub open spec fn following(s: ScrollState) -> ScrollState {
    ScrollState { follow_tail: true, ..s }
}

/// The generation after `g`, wrapping around.
pub open spec fn next_generation(g: u64) -> u64 {
    if g == u64::MAX { 0 } else { (g + 1) as u64 }
}

/// A system notice appended to the conversation.
pub open spec fn notice_step(m: ChatModel, content: Seq<char>) -> ChatModel {
    ChatModel { messages: m.messages.push((Role::System, content)), scroll: following(m.scroll), ..m }
}

/// The running reply ends with an error: partial text keeps the error in
/// brackets after a blank line, an empty reply becomes the error, and
/// without a streaming message the error is appended.
pub open spec fn finish_error_step(m: ChatModel, error: Seq<char>) -> ChatModel {
    let messages = match m.streaming {
        Some(i) => if i < m.messages.len() {
            let content = m.messages[i as int].1;
            m.messages.update(i as int, (m.messages[i as int].0, if content.len() == 0 {
                error
            } else {
                content + "\n\n["@ + error + "]"@
            }))
        } else {
            m.messages
        },
        None => m.messages.push((Role::Assistant, error)),
    };
    ChatModel { messages, busy: false, streaming: None, scroll: following(m.scroll), ..m }
}

/// What the channel's answer to a chat means for the screen: an accepted
/// chat is shown as the user's message and a reply is running; a refused
/// one tells the user the worker is gone.
pub open spec fn chat_outcome_step(m: ChatModel, input: Seq<char>, accepted: bool) -> ChatModel {
    if accepted {
        ChatModel {
            messages: m.messages.push((Role::User, input)),
            busy: true,
            scroll: following(m.scroll),
            ..m
        }
    } else {
        ChatModel { messages: m.messages.push((Role::Assistant, worker_gone())), ..m }
    }
}

/// A chat handed to the worker under the current generation, logged with
/// the channel's answer `accepted`, and the screen following that answer.
pub open spec fn send_chat_step(m: ChatModel, input: Seq<char>, accepted: bool) -> ChatModel {
    let handed = m.handed.push((CommandView::Chat { generation: m.generation, input }, accepted));
    chat_outcome_step(ChatModel { handed, ..m }, input, accepted)
}

/// The oldest buffered input is sent; it leaves the buffer only when the
/// channel accepts it.
pub open spec fn release_step(m: ChatModel, accepted: bool) -> ChatModel {
    if m.buffered.len() == 0 {
        m
    } else {
        let sent = send_chat_step(m, m.buffered[0], accepted);
        if accepted {
            ChatModel { buffered: m.buffered.drop_first(), ..sent }
        } else {
            sent
        }
    }
}

/// A new conversation: the generation moves on, everything shown, running
/// or buffered is dropped, and a clear is handed to the worker so that it
/// drops its history; the channel's answer is logged, and nothing else
/// depends on it.
pub open spec fn clear_step(m: ChatModel, accepted: bool) -> ChatModel {
    ChatModel {
        generation: next_generation(m.generation),
        busy: false,
        streaming: None,
        buffered: Seq::empty(),
        messages: Seq::empty(),
        handed: m.handed.push((CommandView::Clear, accepted)),
        scroll: ScrollState { offset: 0, follow_tail: true },
        ..m
    }
}

/// The conversation with the content of message `i` replaced, if it exists.
pub open spec fn set_content(ms: Seq<(Role, Seq<char>)>, i: nat, content: Seq<char>) -> Seq<(Role, Seq<char>)> {
    if i < ms.len() {
        ms.update(i as int, (ms[i as int].0, content))
    } else {
        ms
    }
}

/// What an event of the current generation does.
pub open spec fn event_step(m: ChatModel, event: ConversationEvent, accepted: bool) -> ChatModel {
    match event {
        ConversationEvent::ReplyDelta(delta) => if delta@.len() == 0 {
            m
        } else {
            match m.streaming {
                Some(i) => ChatModel {
                    messages: if i < m.messages.len() {
                        set_content(m.messages, i, m.messages[i as int].1 + delta@)
                    } else {
                        m.messages
                    },
                    scroll: following(m.scroll),
                    ..m
                },
                None => ChatModel {
                    messages: m.messages.push((Role::Assistant, delta@)),
                    streaming: Some(m.messages.len()),
                    scroll: following(m.scroll),
                    ..m
                },
            }
        },
        ConversationEvent::ReplyReset => ChatModel {
            messages: match m.streaming {
                Some(i) => set_content(m.messages, i, Seq::empty()),
                None => m.messages,
            },
            scroll: following(m.scroll),
            ..m
        },
        ConversationEvent::Reply(content) => release_step(
            ChatModel {
                busy: false,
                streaming: None,
                messages: match m.streaming {
                    Some(i) => set_content(m.messages, i, content@),
                    None => m.messages.push((Role::Assistant, content@)),
                },
                scroll: following(m.scroll),
                ..m
            },
            accepted,
        ),
        ConversationEvent::Error(error) => release_step(finish_error_step(m, error.message_view()), accepted),
    }
}

/// Events of other generations are ignored.
pub open spec fn application_event_step(m: ChatModel, event: ApplicationEvent, accepted: bool) -> ChatModel {
    if event.generation != m.generation {
        m
    } else {
        event_step(m, event.kind, accepted)
    }
}

/// What a slash command does.
pub open spec fn command_step(m: ChatModel, command: Command, accepted: bool) -> ChatModel {
    match command {
        Command::Clear => notice_step(clear_step(m, accepted), cleared_notice()),
        Command::Skills => notice_step(m, capability_text("Skill"@, m.skills, no_skills_notice())),
        Command::Tools => notice_step(m, capability_text("Tool"@, m.tools, no_tools_notice())),
        Command::Help => notice_step(m, HELP@),
        Command::Quit => ChatModel { should_quit: true, ..m },
        Command::Unknown => notice_step(m, unknown_notice()),
    }
}

/// Submitting the input line: blank input is ignored; a slash command is
/// run; during a reply the trimmed input is buffered; otherwise it is sent,
/// and the input line is kept if the worker did not take it.
pub open spec fn submit_step(m: ChatModel, accepted: bool) -> ChatModel {
    let text = trimmed(m.input);
    if text.len() == 0 {
        m
    } else if text[0] == '/' {
        command_step(ChatModel { input: Seq::empty(), cursor: 0, ..m }, command_for(text), accepted)
    } else if m.busy {
        ChatModel { buffered: m.buffered.push(text), input: Seq::empty(), cursor: 0, ..m }
    } else {
        let after = send_chat_step(m, text, accepted);
        if accepted {
            ChatModel { input: Seq::empty(), cursor: 0, ..after }
        } else {
            after
        }
    }
}

/// What an action does, and whether it changed anything that is drawn.
pub open spec fn action_step(m: ChatModel, action: Option<Action>, accepted: bool) -> (ChatModel, bool) {
    let k = caret(m);
    match action {
        None => (m, false),
        Some(Action::Quit) => (ChatModel { should_quit: true, ..m }, true),
        Some(Action::Submit) => (submit_step(m, accepted), true),
        Some(Action::Clear) => (clear_step(m, accepted), true),
        Some(Action::Insert(c)) => (
            ChatModel {
                input: m.input.take(k) + seq![c] + m.input.skip(k),
                cursor: m.cursor + utf8_width(c),
                ..m
            },
            true,
        ),
        Some(Action::Backspace) => (
            if k > 0 {
                ChatModel {
                    input: m.input.take(k - 1) + m.input.skip(k),
                    cursor: byte_offset(m.input, k - 1),
                    ..m
                }
            } else {
                m
            },
            true,
        ),
        Some(Action::Delete) => if k < m.input.len() {
            (ChatModel { input: m.input.take(k) + m.input.skip(k + 1), ..m }, true)
        } else {
            (m, false)
        },
        Some(Action::Left) => (
            if k > 0 { ChatModel { cursor: byte_offset(m.input, k - 1), ..m } } else { m },
            true,
        ),
        Some(Action::Right) => if k < m.input.len() {
            (ChatModel { cursor: byte_offset(m.input, k + 1), ..m }, true)
        } else {
            (m, false)
        },
        Some(Action::Home) => (ChatModel { cursor: 0, ..m }, true),
        Some(Action::End) => (ChatModel { cursor: byte_len(m.input), ..m }, true),
        Some(Action::FollowTail) => (ChatModel { scroll: following(m.scroll), ..m }, true),
        Some(Action::ScrollUp(n)) => (ChatModel { scroll: scrolled_up(m.scroll, n), ..m }, true),
        Some(Action::ScrollDown(n)) => (ChatModel { scroll: scrolled_down(m.scroll, n), ..m }, true),
    }
}

/// The view of a message list.
pub open spec fn messages_view(ms: Seq<Message>) -> Seq<(Role, Seq<char>)> {
    ms.map_values(|m: Message| (m.role, m.content@))
}

impl App {
    /// A chat screen that greets the user and talks to the worker over the
    /// given channels.
    pub fn new(
        provider_label: String,
        commands: UnboundedSender<ApplicationCommand>,
        events: UnboundedReceiver<ApplicationEvent>,
    ) -> (r: App)
        ensures
            r@ == (ChatModel {
                messages: seq![(Role::Assistant, greeting())],
                input: Seq::empty(),
                cursor: 0,
                buffered: Seq::empty(),
                busy: false,
                streaming: None,
                generation: 0,
                should_quit: false,
                scroll: ScrollState { offset: 0, follow_tail: true },
                handed: Seq::empty(),
                provider_label: provider_label@,
                skills: Seq::empty(),
                tools: Seq::empty(),
            }),
    {
        let mut messages: Vec<Message> = Vec::new();
        messages.push(Message::new(
            Role::Assistant,
            "你好，我是 OpenKanojyo。输入消息并按 Enter 开始对话，/help 查看命令。",
        ));
        let r = App {
            messages,
            input: String::new(),
            cursor: 0,
            buffered_inputs: VecDeque::new(),
            busy: false,
            streaming_message: None,
            generation: 0,
            should_quit: false,
            conversation_scroll: ScrollState::default(),
            provider_label,
            skills: Vec::new(),
            tools: Vec::new(),
            commands: CommandLink::new(commands),
            events,
        };
        assert(r@ =~= (ChatModel {
            messages: seq![(Role::Assistant, greeting())],
            input: Seq::empty(),
            cursor: 0,
            buffered: Seq::empty(),
            busy: false,
            streaming: None,
            generation: 0,
            should_quit: false,
            scroll: ScrollState { offset: 0, follow_tail: true },
            handed: Seq::empty(),
            provider_label: provider_label@,
            skills: Seq::empty(),
            tools: Seq::empty(),
        }));
        r
    }

    /// The screen with the given skills and tools listed by `/skill` and
    /// `/tool`.
    pub fn with_capabilities(self, skills: Vec<CapabilitySummary>, tools: Vec<CapabilitySummary>) -> (r: App)
        ensures
            r@ == (ChatModel { skills: skills@, tools: tools@, ..self@ }),
    {
        App { skills, tools, ..self }
    }

    /// Whether the user asked to quit.
    pub fn should_quit(&self) -> (r: bool)
        ensures
            r == self@.should_quit,
    {
        self.should_quit
    }

    /// Appends a system notice.
    pub fn notice(&mut self, content: String)
        ensures
            final(self)@ == notice_step(old(self)@, content@),
    {
        self.messages.push(Message::from_string(Role::System, content));
        self.conversation_scroll.follow_tail = true;
        assert(self@ =~= notice_step(old(self)@, content@));
    }

    /// Ends the running reply with an error message.
    pub fn finish_with_error(&mut self, message: &str)
        ensures
            final(self)@ == finish_error_step(old(self)@, message@),
    {
        self.busy = false;
        let streaming = self.streaming_message.take();
        match streaming {
            Some(index) => {
                if index < self.messages.len() {
                    let role = self.messages[index].role;
                    let content = if self.messages[index].content.as_str().is_empty() {
                        message.to_owned()
                    } else {
                        let mut c = self.messages[index].content.clone();
                        push_text(&mut c, "\n\n[");
                        push_text(&mut c, message);
                        push_text(&mut c, "]");
                        c
                    };
                    self.messages.set(index, Message::from_string(role, content));
                }
            },
            None => {
                self.messages.push(Message::new(Role::Assistant, message));
            },
        }
        self.conversation_scroll.follow_tail = true;
        assert(self@ =~= finish_error_step(old(self)@, message@));
    }

    /// Hands a chat to the worker; returns whether the channel took it,
    /// which is also the answer logged with it.
    pub fn send_chat(&mut self, input: String) -> (accepted: bool)
        ensures
            final(self)@ == send_chat_step(old(self)@, input@, accepted),
            final(self)@.handed.last() == (CommandView::Chat { generation: old(self)@.generation, input: input@ }, accepted),
    {
        let accepted = self.commands.send(ApplicationCommand::Chat { generation: self.generation, input: input.clone() });
        self.record_chat(input, accepted);
        accepted
    }

    /// Shows what the channel's answer to the chat `input` means: the
    /// user's message and a running reply if it was accepted, a notice that
    /// the worker is gone if not.
    pub fn record_chat(&mut self, input: String, accepted: bool)
        ensures
            final(self)@ == chat_outcome_step(old(self)@, input@, accepted),
    {
        if accepted {
            self.messages.push(Message::from_string(Role::User, input));
            self.busy = true;
            self.conversation_scroll.follow_tail = true;
        } else {
            self.messages.push(Message::new(Role::Assistant, "后台任务已停止，请退出并重新启动应用。"));
        }
        assert(self@ =~= chat_outcome_step(old(self)@, input@, accepted));
    }

    /// Sends the oldest buffered input, keeping it if the worker is gone.
    pub fn submit_buffered_input(&mut self)
        ensures
            final(self)@ == release_step(old(self)@, true) || final(self)@ == release_step(old(self)@, false),
    {
        let front = self.buffered_inputs.pop_front();
        match front {
            None => {
                assert(self@ =~= release_step(old(self)@, true));
            },
            Some(input) => {
                let ghost rest = self.buffered_inputs@;
                let ghost m0 = old(self)@;
                assert(m0.buffered[0] == input@);
                let ghost mid = self@;
                assert(mid =~= ChatModel { buffered: m0.buffered.drop_first(), ..m0 });
                let accepted = self.send_chat(input.clone());
                if !accepted {
                    let ghost before_push = self@.buffered;
                    assert(before_push =~= m0.buffered.drop_first());
                    self.buffered_inputs.push_front(input);
                    assert(self@.buffered =~= seq![input@] + before_push);
                    assert(self@.buffered =~= m0.buffered);
                    assert(self@ =~= release_step(old(self)@, false));
                } else {
                    assert(self@ =~= release_step(old(self)@, true));
                }
            },
        }
    }

    /// Starts a new conversation.
    pub fn clear(&mut self)
        ensures
            final(self)@ == clear_step(old(self)@, true) || final(self)@ == clear_step(old(self)@, false),
    {
        self.generation = if self.generation == u64::MAX { 0 } else { self.generation + 1 };
        self.busy = false;
        self.streaming_message = None;
        self.buffered_inputs.clear();
        self.messages.clear();
        let accepted = self.commands.send(ApplicationCommand::Clear);
        self.conversation_scroll = ScrollState::default();
        assert(self@ =~= clear_step(old(self)@, accepted));
    }

    /// Runs a slash command.
    pub fn execute_command(&mut self, command: Command)
        ensures
            final(self)@ == command_step(old(self)@, command, true)
                || final(self)@ == command_step(old(self)@, command, false),
    {
        match command {
            Command::Clear => {
                self.clear();
                self.notice("已新开对话。".to_owned());
            },
            Command::Skills => {
                let text = capability_list(
                    "Skill",
                    self.skills.as_slice(),
                    "当前未挂载 Skill。可通过 AGENT_ENABLE_SKILLS=true 启用内置 Skill。",
                );
                self.notice(text);
            },
            Command::Tools => {
                let text = capability_list(
                    "Tool",
                    self.tools.as_slice(),
                    "当前未挂载 Tool。可通过 AGENT_ENABLE_SKILLS=true 启用 Skill 加载器，或通过 AGENT_ENABLE_TOOLS=true 启用 shell。",
                );
                self.notice(text);
            },
            Command::Help => {
                self.notice(HELP.to_owned());
            },
            Command::Quit => {
                self.should_quit = true;
                assert(self@ =~= command_step(old(self)@, command, true));
            },
            Command::Unknown => {
                self.notice("未知命令或多余参数，请输入 /help 查看用法。".to_owned());
            },
        }
    }

    /// Applies an event of the current conversation.
    pub fn handle_conversation_event(&mut self, event: ConversationEvent)
        ensures
            final(self)@ == event_step(old(self)@, event, true)
                || final(self)@ == event_step(old(self)@, event, false),
    {
        let ghost ev = event;
        match event {
            ConversationEvent::ReplyDelta(delta) => {
                if delta.as_str().is_empty() {
                    return;
                }
                match self.streaming_message {
                    Some(index) => {
                        if index < self.messages.len() {
                            let role = self.messages[index].role;
                            let mut content = self.messages[index].content.clone();
                            push_text(&mut content, delta.as_str());
                            self.messages.set(index, Message::from_string(role, content));
                        }
                    },
                    None => {
                        self.messages.push(Message::from_string(Role::Assistant, delta));
                        self.streaming_message = Some(self.messages.len() - 1);
                    },
                }
                self.conversation_scroll.follow_tail = true;
                assert(self@ =~= event_step(old(self)@, ev, true));
            },
            ConversationEvent::ReplyReset => {
                if let Some(index) = self.streaming_message {
                    if index < self.messages.len() {
                        let role = self.messages[index].role;
                        self.messages.set(index, Message::from_string(role, String::new()));
                    }
                }
                self.conversation_scroll.follow_tail = true;
                assert(self@ =~= event_step(old(self)@, ev, true));
            },
            ConversationEvent::Reply(content) => {
                self.busy = false;
                match self.streaming_message.take() {
                    Some(index) => {
                        if index < self.messages.len() {
                            let role = self.messages[index].role;
                            self.messages.set(index, Message::from_string(role, content));
                        }
                    },
                    None => {
                        self.messages.push(Message::from_string(Role::Assistant, content));
                    },
                }
                self.conversation_scroll.follow_tail = true;
                let ghost mid = self@;
                assert(event_step(old(self)@, ev, true) == release_step(mid, true));
                assert(event_step(old(self)@, ev, false) == release_step(mid, false));
                self.submit_buffered_input();
            },
            ConversationEvent::Error(error) => {
                self.finish_with_error(error.message());
                self.submit_buffered_input();
            },
        }
    }

    /// Applies an event from the worker; events of other generations are
    /// ignored.
    pub fn handle_application_event(&mut self, event: ApplicationEvent)
        ensures
            final(self)@ == application_event_step(old(self)@, event, true)
                || final(self)@ == application_event_step(old(self)@, event, false),
    {
        if event.generation != self.generation {
            return;
        }
        self.handle_conversation_event(event.kind);
    }

    /// Submits the input line.
    pub fn submit(&mut self)
        ensures
            final(self)@ == submit_step(old(self)@, true) || final(self)@ == submit_step(old(self)@, false),
    {
        let input = trim(self.input.as_str());
        if input.as_str().is_empty() {
            return;
        }
        let first = input.as_str().get_char(0);
        if first == '/' {
            self.input = String::new();
            self.cursor = 0;
            let command = parse(input.as_str());
            let ghost cleared = self@;
            assert(cleared =~= ChatModel { input: Seq::empty(), cursor: 0, ..old(self)@ });
            self.execute_command(command);
            return;
        }
        if self.busy {
            self.buffered_inputs.push_back(input);
            self.input = String::new();
            self.cursor = 0;
            assert(self@ =~= submit_step(old(self)@, true));
            return;
        }
        let accepted = self.send_chat(input);
        if accepted {
            self.input = String::new();
            self.cursor = 0;
            assert(self@ =~= submit_step(old(self)@, true));
        } else {
            assert(self@ =~= submit_step(old(self)@, false));
        }
    }

    /// The input line is split at a character boundary by the cursor.
    pub open spec fn wf(&self) -> bool {
        well_formed(self@)
    }

    /// Replaces the input line, with the cursor after its last character.
    pub fn set_input(&mut self, text: &str)
        ensures
            final(self)@ == (ChatModel { input: text@, cursor: byte_len(text@), ..old(self)@ }),
            final(self).wf(),
    {
        let n = str_byte_len(text);
        self.input = text.to_owned();
        self.cursor = n;
        proof {
            lemma_byte_offset_full(text@);
        }
        assert(self@ =~= ChatModel { input: text@, cursor: byte_len(text@), ..old(self)@ });
    }

    /// Applies an action; returns whether anything drawn changed.
    pub fn apply_action(&mut self, action: Option<Action>) -> (changed: bool)
        requires
            old(self).wf(),
        ensures
            final(self).wf(),
            (final(self)@, changed) == action_step(old(self)@, action, true)
                || (final(self)@, changed) == action_step(old(self)@, action, false),
    {
        let ghost m = self@;
        match action {
            None => {
                return false;
            },
            Some(Action::Quit) => {
                self.should_quit = true;
                assert(self@ =~= action_step(m, action, true).0);
            },
            Some(Action::Submit) => {
                self.submit();
                proof {
                    if self@ == submit_step(m, true) {
                        assert(action_step(m, action, true).0 == submit_step(m, true));
                    } else {
                        assert(action_step(m, action, false).0 == submit_step(m, false));
                    }
                    let t = trimmed(m.input);
                    if t.len() > 0 && t[0] == '/' {
                        assert(is_boundary(self@.input, self@.cursor as int)) by {
                            assert(byte_offset(self@.input, 0) == 0);
                        }
                    } else {
                        assert(is_boundary(self@.input, self@.cursor as int)) by {
                            assert(byte_offset(self@.input, 0) == 0);
                        }
                    }
                }
            },
            Some(Action::Clear) => {
                self.clear();
            },
            Some(Action::FollowTail) => {
                self.conversation_scroll.follow_tail = true;
                assert(self@ =~= action_step(m, action, true).0);
            },
            Some(Action::ScrollUp(amount)) => {
                self.conversation_scroll.up(amount);
                assert(self@ =~= action_step(m, action, true).0);
            },
            Some(Action::ScrollDown(amount)) => {
                self.conversation_scroll.down(amount);
                assert(self@ =~= action_step(m, action, true).0);
            },
            Some(Action::Home) => {
                self.cursor = 0;
                proof {
                    lemma_char_index_of_offset(m.input, 0);
                    assert(byte_offset(m.input, 0) == 0);
                }
                assert(self@ =~= action_step(m, action, true).0);
            },
            Some(Action::End) => {
                self.cursor = str_byte_len(self.input.as_str());
                proof {
                    lemma_byte_offset_full(m.input);
                    lemma_char_index_of_offset(m.input, m.input.len() as int);
                }
                assert(self@ =~= action_step(m, action, true).0);
            },
            Some(edit) => {
                return self.edit_input(edit);
            },
        }
        true
    }

    /// Applies a typing or cursor action to the input line.
    fn edit_input(&mut self, edit: Action) -> (changed: bool)
        requires
            old(self).wf(),
            edit is Insert || edit is Backspace || edit is Delete || edit is Left || edit is Right,
        ensures
            final(self).wf(),
            (final(self)@, changed) == action_step(old(self)@, Some(edit), true),
    {
        let ghost m = self@;
        let chars = chars_of(self.input.as_str());
        let total = str_byte_len(self.input.as_str());
        let k = match index_of_offset(&chars, self.cursor) {
            Some(k) => k,
            None => {
                return false;
            },
        };
        proof {
            lemma_char_index_of_offset(m.input, k as int);
            lemma_byte_offset_full(m.input);
            lemma_byte_offset_grows(m.input, k as int, m.input.len() as int);
        }
        assert(k as int == caret(m));
        match edit {
            Action::Insert(c) => {
                let updated = splice(&chars, k, k, Some(c));
                self.input = string_of(&updated);
                self.cursor = self.cursor + utf8_len(c);
                proof {
                    let s = self@.input;
                    assert(s.take(k as int) =~= m.input.take(k as int));
                    assert(s.take(k + 1) =~= m.input.take(k as int).push(c));
                    lemma_byte_len_push(m.input.take(k as int), c);
                    assert(byte_offset(s, k + 1) == self.cursor);
                    lemma_char_index_of_offset(s, k + 1);
                }
                assert(self@ =~= action_step(m, Some(edit), true).0);
                true
            },
            Action::Backspace => {
                if k == 0 {
                    return true;
                }
                proof {
                    lemma_byte_offset_grows(m.input, k - 1, k as int);
                }
                let prev = crate::text::offset_of_index(&chars, k - 1, self.cursor);
                let updated = splice(&chars, k - 1, k, None);
                self.input = string_of(&updated);
                self.cursor = prev;
                proof {
                    lemma_byte_offset_grows(m.input, k - 1, k as int);
                    let s = self@.input;
                    assert(s.take(k - 1) =~= m.input.take(k - 1));
                    lemma_char_index_of_offset(s, k - 1);
                }
                assert(self@ =~= action_step(m, Some(edit), true).0);
                true
            },
            Action::Delete => {
                if self.cursor >= total {
                    proof {
                        if k < m.input.len() {
                            lemma_byte_offset_grows(m.input, k as int, k + 1);
                            lemma_byte_offset_grows(m.input, k + 1, m.input.len() as int);
                        }
                    }
                    return false;
                }
                let updated = splice(&chars, k, k + 1, None);
                self.input = string_of(&updated);
                proof {
                    let s = self@.input;
                    assert(s.take(k as int) =~= m.input.take(k as int));
                    lemma_char_index_of_offset(s, k as int);
                }
                assert(self@ =~= action_step(m, Some(edit), true).0);
                true
            },
            Action::Left => {
                if k == 0 {
                    return true;
                }
                proof {
                    lemma_byte_offset_grows(m.input, k - 1, k as int);
                    lemma_char_index_of_offset(m.input, k - 1);
                }
                self.cursor = crate::text::offset_of_index(&chars, k - 1, self.cursor);
                assert(self@ =~= action_step(m, Some(edit), true).0);
                true
            },
            _ => {
                if self.cursor >= total {
                    proof {
                        if k < m.input.len() {
                            lemma_byte_offset_grows(m.input, k as int, k + 1);
                            lemma_byte_offset_grows(m.input, k + 1, m.input.len() as int);
                        }
                    }
                    return false;
                }
                proof {
                    lemma_byte_offset_next(m.input, k as int);
                    lemma_char_index_of_offset(m.input, k + 1);
                }
                self.cursor = self.cursor + utf8_len(chars[k]);
                assert(self@ =~= action_step(m, Some(edit), true).0);
                true
            },
        }
    }

    /// Applies a key press; returns whether anything drawn changed.
    pub fn handle_key(&mut self, key: KeyInput) -> (changed: bool)
        requires
            old(self).wf(),
        ensures
            final(self).wf(),
            (final(self)@, changed) == action_step(old(self)@, action_for_key(key), true)
                || (final(self)@, changed) == action_step(old(self)@, action_for_key(key), false),
    {
        self.apply_action(key_action(key))
    }

    /// Applies a mouse event; returns whether anything drawn changed.
    pub fn handle_mouse(&mut self, mouse: MouseInput) -> (changed: bool)
        requires
            old(self).wf(),
        ensures
            final(self).wf(),
            (final(self)@, changed) == action_step(old(self)@, match mouse {
                MouseInput::ScrollUp => Some(Action::ScrollUp(3)),
                MouseInput::ScrollDown => Some(Action::ScrollDown(3)),
                MouseInput::Other => None,
            }, true),
    {
        self.apply_action(mouse_action(mouse))
    }

    /// One look at the worker's events: an event is applied (and the screen
    /// needs drawing if it belongs to the current conversation); a closed
    /// channel ends a running reply with an error; otherwise nothing changes.
    pub fn poll_application(&mut self) -> (r: EventPoll)
        ensures
            match r {
                EventPoll::Handled { dirty } => exists|event: ApplicationEvent|
                    dirty == (event.generation == old(self)@.generation) && (
                        final(self)@ == application_event_step(old(self)@, event, true)
                        || final(self)@ == application_event_step(old(self)@, event, false)),
                EventPoll::Drained { dirty } => if dirty {
                    old(self)@.busy && final(self)@ == finish_error_step(old(self)@, worker_stopped())
                } else {
                    final(self)@ == old(self)@
                },
            },
    {
        let received = try_receive(&mut self.events);
        self.apply_received(received)
    }

    /// Applies what one look at the worker's events found: an event is
    /// applied, and the screen needs drawing if it belongs to the current
    /// conversation; a closed channel ends a running reply with an error;
    /// an empty channel changes nothing.
    pub fn apply_received(&mut self, received: Received) -> (r: EventPoll)
        ensures
            match received {
                Received::Event(event) => r == (EventPoll::Handled { dirty: event.generation == old(self)@.generation })
                    && (final(self)@ == application_event_step(old(self)@, event, true)
                        || final(self)@ == application_event_step(old(self)@, event, false)),
                Received::Disconnected => if old(self)@.busy {
                    r == (EventPoll::Drained { dirty: true })
                        && final(self)@ == finish_error_step(old(self)@, worker_stopped())
                } else {
                    r == (EventPoll::Drained { dirty: false }) && final(self)@ == old(self)@
                },
                Received::Empty => r == (EventPoll::Drained { dirty: false }) && final(self)@ == old(self)@,
            },
    {
        match received {
            Received::Event(event) => {
                let dirty = event.generation == self.generation;
                self.handle_application_event(event);
                EventPoll::Handled { dirty }
            },
            Received::Disconnected => {
                if self.busy {
                    self.finish_with_error("请求失败：后台任务已停止，请重新启动应用。");
                    EventPoll::Drained { dirty: true }
                } else {
                    EventPoll::Drained { dirty: false }
                }
            },
            Received::Empty => EventPoll::Drained { dirty: false },
        }
    }

    /// The conversation laid out `width` columns wide, and the scroll offset
    /// settled for a view `height` lines high.
    pub fn history_view(&mut self, width: usize, height: usize) -> (r: (Vec<StyledLine>, u16))
        ensures
            lines_view(r.0@) == conversation_lines(old(self).messages@, width as nat),
            final(self)@ == (ChatModel {
                scroll: resolved(old(self)@.scroll, r.0@.len(), height as nat),
                ..old(self)@
            }),
            r.1 == final(self)@.scroll.offset,
    {
        let lines = conversation_text(self.messages.as_slice(), width);
        let offset = self.conversation_scroll.resolve(lines.len(), height);
        assert(self@ =~= ChatModel { scroll: resolved(old(self)@.scroll, lines@.len(), height as nat), ..old(self)@ });
        (lines, offset)
    }

    /// The status line.
    pub fn status(&self) -> (r: StyledLine)
        ensures
            line_view(r) == (
                status_spans(self@.streaming is Some, self@.busy, self@.buffered.len(), self@.provider_label),
                Alignment::Left,
            ),
    {
        status_line(
            self.streaming_message.is_some(),
            self.busy,
            self.buffered_inputs.len(),
            self.provider_label.as_str(),
        )
    }

    /// Where the visible part of the input line starts in a box `width`
    /// columns wide, and how many columns the cursor is from there.
    pub fn input_view(&self, width: usize) -> (r: (usize, usize))
        requires
            self.wf(),
        ensures
            is_boundary(self@.input, r.0 as int),
            visible_from(self@.input, char_index(self@.input, r.0 as int), caret(self@), width as nat),
            r.1 == str_columns(self@.input.subrange(char_index(self@.input, r.0 as int), caret(self@))),
    {
        let start = visible_input_start(self.input.as_str(), self.cursor, width);
        let chars = chars_of(self.input.as_str());
        let from = match index_of_offset(&chars, start) {
            Some(i) => i,
            None => {
                return (start, 0);
            },
        };
        let to = match index_of_offset(&chars, self.cursor) {
            Some(i) => i,
            None => {
                return (start, 0);
            },
        };
        proof {
            lemma_char_index_of_offset(self@.input, from as int);
            lemma_char_index_of_offset(self@.input, to as int);
        }
        let mut piece: Vec<char> = Vec::new();
        let mut i = from;
        while i < to
            invariant
                from <= i <= to <= chars.len(),
                piece@ == chars@.subrange(from as int, i as int),
            decreases to - i,
        {
            piece.push(chars[i]);
            assert(chars@.subrange(from as int, i + 1) =~= chars@.subrange(from as int, i as int).push(chars@[i as int]));
            i = i + 1;
        }
        let text = string_of(&piece);
        let columns = str_width(text.as_str());
        (start, columns)
    }
}

/// What one look at the worker's events found.
#[derive(Clone, Copy, Debug, PartialEq, Eq)]
pub enum EventPoll {
    /// An event was applied; keep looking.
    Handled { dirty: bool },
    /// Nothing more to look at for now.
    Drained { dirty: bool },
}

/// After a new conversation starts, no event of the previous generation
/// changes anything, whatever it reports.
pub proof fn lemma_stale_events_ignored(m: ChatModel, cleared: bool, event: ApplicationEvent, accepted: bool)
    requires
        event.generation == m.generation,
    ensures
        application_event_step(clear_step(m, cleared), event, accepted) == clear_step(m, cleared),
{
}

/// Buffered inputs leave the buffer oldest first: when a reply ends, the
/// oldest one is handed to the worker under the current generation; it
/// leaves the buffer if the worker took it, and otherwise the buffer is kept
/// as it is.
pub proof fn lemma_buffered_in_order(m: ChatModel, accepted: bool)
    requires
        m.buffered.len() > 0,
    ensures
        release_step(m, accepted).handed
            == m.handed.push((CommandView::Chat { generation: m.generation, input: m.buffered[0] }, accepted)),
        accepted ==> release_step(m, accepted).buffered == m.buffered.drop_first() && release_step(m, accepted).busy,
        !accepted ==> release_step(m, accepted).buffered == m.buffered,
{
}

/// During a reply, a submitted message is queued behind the earlier ones
/// instead of being sent or shown.
pub proof fn lemma_input_buffered_while_busy(m: ChatModel, accepted: bool)
    requires
        m.busy,
        trimmed(m.input).len() > 0,
        trimmed(m.input)[0] != '/',
    ensures
        submit_step(m, accepted).buffered == m.buffered.push(trimmed(m.input)),
        submit_step(m, accepted).handed == m.handed,
        submit_step(m, accepted).messages == m.messages,
        submit_step(m, accepted).input.len() == 0,
{
}

/// A finished reply ends streaming; with nothing buffered, the screen is no
/// longer busy.
pub proof fn lemma_reply_finishes(m: ChatModel, content: String, accepted: bool)
    ensures
        event_step(m, ConversationEvent::Reply(content), accepted).streaming is None,
        m.buffered.len() == 0 ==> !event_step(m, ConversationEvent::Reply(content), accepted).busy,
{
}

/// The page and arrow keys scroll in opposite directions: PageDown and Down
/// never move the view up and move it down unless it is at the last line,
/// PageUp and Up never move it down and move it up unless it is at the top;
/// a page is five lines.
pub proof fn lemma_scroll_keys_move_opposite(m: ChatModel, accepted: bool)
    ensures
        ({
            let before = m.scroll.offset;
            let page_down = action_step(m, action_for_key(KeyInput { code: KeyCode::PageDown, control: false, alt: false }), accepted).0.scroll.offset;
            let page_up = action_step(m, action_for_key(KeyInput { code: KeyCode::PageUp, control: false, alt: false }), accepted).0.scroll.offset;
            let down = action_step(m, action_for_key(KeyInput { code: KeyCode::Down, control: false, alt: false }), accepted).0.scroll.offset;
            let up = action_step(m, action_for_key(KeyInput { code: KeyCode::Up, control: false, alt: false }), accepted).0.scroll.offset;
            &&& page_down >= before && down >= before
            &&& page_up <= before && up <= before
            &&& before + 5 <= u16::MAX ==> page_down == before + 5
            &&& before >= 5 ==> page_up == before - 5
            &&& before < u16::MAX ==> down == before + 1
            &&& before > 0 ==> up == before - 1
        }),
{
}

/// A retried turn starts over: a reset of the streaming reply empties its
/// message and leaves every other message as it was, so text streamed after
/// the reset replaces what came before it. After `a`, a reset and `b`, the
/// streamed message is exactly `b`.
pub proof fn lemma_reset_discards_partial_reply(m: ChatModel, a: String, b: String, accepted: bool)
    requires
        a@.len() > 0,
        b@.len() > 0,
        m.streaming matches Some(i) ==> i < m.messages.len(),
    ensures
        ({
            let m1 = event_step(m, ConversationEvent::ReplyDelta(a), accepted);
            let m2 = event_step(m1, ConversationEvent::ReplyReset, accepted);
            let m3 = event_step(m2, ConversationEvent::ReplyDelta(b), accepted);
            &&& m1.streaming is Some
            &&& m1.streaming->0 < m1.messages.len()
            &&& m2.messages.len() == m1.messages.len()
            &&& m2.messages[m1.streaming->0 as int].1.len() == 0
            &&& forall|j: int| 0 <= j < m1.messages.len() && j != m1.streaming->0 ==> m2.messages[j] == m1.messages[j]
            &&& m3.streaming == m1.streaming
            &&& m3.messages[m1.streaming->0 as int].1 == b@
        }),
{
    let m1 = event_step(m, ConversationEvent::ReplyDelta(a), accepted);
    let m2 = event_step(m1, ConversationEvent::ReplyReset, accepted);
    let k = m1.streaming->0;
    assert(Seq::<char>::empty() + b@ =~= b@);
}

/// Backspace right after typing a character restores the input line and
/// the cursor.
pub proof fn lemma_backspace_undoes_insert(m: ChatModel, c: char, accepted: bool)
    requires
        well_formed(m),
    ensures
        ({
            let typed = action_step(m, Some(Action::Insert(c)), accepted).0;
            let erased = action_step(typed, Some(Action::Backspace), accepted).0;
            erased.input == m.input && erased.cursor == m.cursor
        }),
{
    let k = caret(m);
    lemma_char_index_of_offset(m.input, k);
    let typed = action_step(m, Some(Action::Insert(c)), accepted).0;
    let s = typed.input;
    assert(s.take(k + 1) =~= m.input.take(k).push(c));
    lemma_byte_len_push(m.input.take(k), c);
    assert(byte_offset(s, k + 1) == typed.cursor);
    lemma_char_index_of_offset(s, k + 1);
    assert(s.take(k) =~= m.input.take(k));
    assert(s.take(k) + s.skip(k + 1) =~= m.input);
}

} // verus!
