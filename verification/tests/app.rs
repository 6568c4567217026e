use open_kanojyo::capability::CapabilitySummary;
use open_kanojyo::channel::Received;
use open_kanojyo::error::AppError;
use open_kanojyo::protocol::{ApplicationCommand, ApplicationEvent, ConversationEvent};
use open_kanojyo::ui::app::{App, EventPoll};
use open_kanojyo::ui::input::{KeyCode, KeyInput, MouseInput};
use open_kanojyo::ui::message::{Message, Role};
use tokio::sync::mpsc;

fn app() -> App {
    let (command_tx, _command_rx) = mpsc::unbounded_channel();
    let (_event_tx, event_rx) = mpsc::unbounded_channel();
    App::new("test-model".to_owned(), command_tx, event_rx)
}

#[test]
fn reply_is_added_to_the_conversation() {
    let mut app = app();
    app.busy = true;
    app.handle_application_event(ApplicationEvent {
        generation: 0,
        kind: ConversationEvent::Reply("你好".to_owned()),
    });
    assert!(!app.busy);
    assert_eq!(app.messages.last().unwrap().content, "你好");
}

#[test]
fn input_is_buffered_while_a_reply_is_in_progress() {
    let (commands, mut receiver) = mpsc::unbounded_channel();
    let (_events, events_rx) = mpsc::unbounded_channel();
    let mut app = App::new("test".to_owned(), commands, events_rx);
    app.busy = true;
    app.input = "下一条".to_owned();
    app.cursor = app.input.len();

    app.submit();

    assert_eq!(
        app.buffered_inputs.front().map(String::as_str),
        Some("下一条")
    );
    assert!(app.input.is_empty());
    assert_eq!(app.cursor, 0);
    assert!(receiver.try_recv().is_err());
    assert!(app
        .messages
        .iter()
        .all(|message| message.content != "下一条"));
}

#[test]
fn buffered_inputs_are_submitted_in_order_after_each_reply() {
    let (commands, mut receiver) = mpsc::unbounded_channel();
    let (_events, events_rx) = mpsc::unbounded_channel();
    let mut app = App::new("test".to_owned(), commands, events_rx);
    app.busy = true;
    for input in ["第二条", "第三条"] {
        app.input = input.to_owned();
        app.cursor = app.input.len();
        app.submit();
    }

    app.handle_application_event(ApplicationEvent {
        generation: 0,
        kind: ConversationEvent::Reply("第一条回复".to_owned()),
    });

    assert!(app.busy);
    assert_eq!(
        app.buffered_inputs.front().map(String::as_str),
        Some("第三条")
    );
    assert!(matches!(
        receiver.try_recv().unwrap(),
        ApplicationCommand::Chat { input, .. } if input == "第二条"
    ));
    assert_eq!(app.messages.last().unwrap().content, "第二条");

    app.handle_application_event(ApplicationEvent {
        generation: 0,
        kind: ConversationEvent::Reply("第二条回复".to_owned()),
    });

    assert!(app.busy);
    assert!(app.buffered_inputs.is_empty());
    assert!(matches!(
        receiver.try_recv().unwrap(),
        ApplicationCommand::Chat { input, .. } if input == "第三条"
    ));
}

#[test]
fn failed_reply_also_releases_the_next_buffered_input() {
    let (commands, mut receiver) = mpsc::unbounded_channel();
    let (_events, events_rx) = mpsc::unbounded_channel();
    let mut app = App::new("test".to_owned(), commands, events_rx);
    app.busy = true;
    app.buffered_inputs.push_back("失败后继续".to_owned());

    app.handle_application_event(ApplicationEvent {
        generation: 0,
        kind: ConversationEvent::Error(AppError::MissingFinalResponse.user_facing()),
    });

    assert!(app.busy);
    assert!(app.buffered_inputs.is_empty());
    assert!(matches!(
        receiver.try_recv().unwrap(),
        ApplicationCommand::Chat { input, .. } if input == "失败后继续"
    ));
}

#[test]
fn streamed_reply_is_updated_in_place_and_finished() {
    let mut app = app();
    app.busy = true;
    for delta in ["你", "好"] {
        app.handle_application_event(ApplicationEvent {
            generation: 0,
            kind: ConversationEvent::ReplyDelta(delta.to_owned()),
        });
    }
    assert!(app.busy);
    assert_eq!(app.messages.last().unwrap().content, "你好");

    app.handle_application_event(ApplicationEvent {
        generation: 0,
        kind: ConversationEvent::Reply("你好！".to_owned()),
    });
    assert!(!app.busy);
    assert!(app.streaming_message.is_none());
    assert_eq!(app.messages.last().unwrap().content, "你好！");
}

#[test]
fn failed_stream_keeps_partial_reply_and_marks_it_interrupted() {
    let mut app = app();
    app.busy = true;
    app.handle_application_event(ApplicationEvent {
        generation: 0,
        kind: ConversationEvent::ReplyDelta("已生成".to_owned()),
    });
    app.handle_application_event(ApplicationEvent {
        generation: 0,
        kind: ConversationEvent::Error(AppError::MissingFinalResponse.user_facing()),
    });

    assert!(!app.busy);
    assert!(app.streaming_message.is_none());
    assert_eq!(
        app.messages.last().unwrap().content,
        "已生成\n\n[请求失败：模型请求失败，请检查网络、模型配置和服务状态后重试。]"
    );
}

#[test]
fn worker_stopped_finishes_partial_reply_without_submitting_buffered_input() {
    let mut app = app();
    app.busy = true;

    app.handle_application_event(ApplicationEvent {
        generation: 0,
        kind: ConversationEvent::ReplyDelta("部分回复".to_owned()),
    });
    app.buffered_inputs.push_back("尚未发送".to_owned());
    app.finish_with_error("后台已停止");
    assert!(!app.busy);
    assert!(app.streaming_message.is_none());
    assert_eq!(
        app.messages.last().unwrap().content,
        "部分回复\n\n[后台已停止]"
    );
    assert_eq!(app.buffered_inputs.front().unwrap(), "尚未发送");
}

#[test]
fn clear_ignores_old_events_and_allows_a_new_turn() {
    let (commands, mut receiver) = mpsc::unbounded_channel();
    let (_events, events_rx) = mpsc::unbounded_channel();
    let mut app = App::new("test".to_owned(), commands, events_rx);
    app.busy = true;
    app.buffered_inputs.push_back("待清空".to_owned());
    app.clear();
    assert!(app.buffered_inputs.is_empty());
    app.input = "新消息".to_owned();
    app.submit();
    app.handle_application_event(ApplicationEvent {
        generation: 0,
        kind: ConversationEvent::Error(AppError::MissingFinalResponse.user_facing()),
    });
    assert!(app.busy);
    assert_eq!(app.messages.len(), 1);
    assert!(matches!(
        receiver.try_recv().unwrap(),
        ApplicationCommand::Clear
    ));
    assert!(matches!(
        receiver.try_recv().unwrap(),
        ApplicationCommand::Chat { generation: 1, .. }
    ));
}

#[test]
fn disconnected_worker_preserves_unsent_input() {
    let mut app = app();
    app.input = "未发送".to_owned();
    app.cursor = app.input.len();
    app.submit();
    assert_eq!(app.input, "未发送");
    assert!(!app.busy);
    assert!(app
        .messages
        .iter()
        .all(|message| message.role != Role::User));
}

#[test]
fn removed_model_command_is_reported_as_unknown() {
    let mut app = app();
    app.input = "/model".to_owned();

    app.submit();

    assert_eq!(
        app.messages.last().unwrap().content,
        "未知命令或多余参数，请输入 /help 查看用法。"
    );
}

#[test]
fn skill_and_tool_commands_list_mounted_capabilities() {
    let mut app = app().with_capabilities(
        vec![CapabilitySummary {
            name: "conversation".to_owned(),
            description: "日常对话".to_owned(),
        }],
        vec![CapabilitySummary {
            name: "shell".to_owned(),
            description: "在本机执行命令".to_owned(),
        }],
    );

    app.input = "/skill".to_owned();
    app.submit();
    assert_eq!(
        app.messages.last().unwrap().content,
        "当前挂载的 Skill（1）：\n- conversation：日常对话"
    );

    app.input = "/tool".to_owned();
    app.submit();
    assert_eq!(
        app.messages.last().unwrap().content,
        "当前挂载的 Tool（1）：\n- shell：在本机执行命令"
    );
}

#[test]
fn skill_and_tool_commands_report_when_none_are_mounted() {
    let mut app = app();
    app.input = "/skill".to_owned();
    app.submit();
    assert!(app
        .messages
        .last()
        .unwrap()
        .content
        .contains("未挂载 Skill"));

    app.input = "/tool".to_owned();
    app.submit();
    assert!(app.messages.last().unwrap().content.contains("未挂载 Tool"));
}

/// The rows of the conversation box that a frame `width` x `height` shows:
/// the box is all but the four bottom rows, framed by a one-column border.
fn visible_conversation(app: &mut App, width: usize, height: usize) -> String {
    let (lines, offset) = app.history_view(width - 2, height - 6);
    lines
        .iter()
        .skip(offset as usize)
        .take(height - 6)
        .map(|line| line.to_string())
        .collect::<Vec<_>>()
        .join("\n")
}

#[test]
fn drawing_keeps_latest_reply_visible_across_multiline_turns() {
    for (width, height) in [(80, 24), (32, 12)] {
        let mut app = app();
        for round in 1..=5 {
            app.messages
                .push(Message::new(Role::User, &format!("第 {round} 轮")));
            app.busy = true;
            let marker = format!("END{round}");
            let reply = format!("第一段中文回复需要按终端宽度换行。\n\n第二段\n\n{marker}");
            for event in [
                ConversationEvent::ReplyDelta(reply.clone()),
                ConversationEvent::Reply(reply),
            ] {
                app.handle_application_event(ApplicationEvent {
                    generation: 0,
                    kind: event,
                });
                let visible = visible_conversation(&mut app, width, height);
                assert!(
                    visible.contains(&marker),
                    "{width}x{height} 第 {round} 轮末尾不可见：{visible:?}"
                );
            }
        }
    }
}

#[test]
fn drawing_preserves_manual_scroll() {
    let mut app = app();
    app.messages = (0..30)
        .map(|index| Message::new(Role::User, &format!("第 {index} 条消息")))
        .collect();
    app.history_view(78, 14);
    app.handle_key(KeyInput::plain(KeyCode::PageUp));
    let manual_offset = app.conversation_scroll.offset;
    app.messages.push(Message::new(Role::Assistant, "新回复"));
    app.history_view(78, 14);
    assert_eq!(app.conversation_scroll.offset, manual_offset);
}

#[test]
fn keyboard_editing_preserves_chinese_boundaries_and_submit() {
    let (commands, mut receiver) = mpsc::unbounded_channel();
    let (_events, events_rx) = mpsc::unbounded_channel();
    let mut app = App::new("test".to_owned(), commands, events_rx);
    for code in [
        KeyCode::Char('你'),
        KeyCode::Char('好'),
        KeyCode::Left,
        KeyCode::Backspace,
        KeyCode::Char('您'),
        KeyCode::Delete,
        KeyCode::Char('好'),
    ] {
        app.handle_key(KeyInput::plain(code));
        assert!(app.input.is_char_boundary(app.cursor));
    }
    assert_eq!(app.input, "您好");
    app.handle_key(KeyInput::plain(KeyCode::Enter));
    assert!(
        matches!(receiver.try_recv().unwrap(), ApplicationCommand::Chat { input, .. } if input == "您好")
    );
    assert!(app.input.is_empty());
    assert_eq!(app.cursor, 0);
}

#[test]
fn events_of_an_older_generation_are_ignored() {
    let mut app = app();
    app.clear();
    let before = app.messages.len();
    app.handle_application_event(ApplicationEvent {
        generation: 0,
        kind: ConversationEvent::Reply("旧回复".to_owned()),
    });
    assert_eq!(app.messages.len(), before);
    assert_eq!(app.generation, 1);
}

#[test]
fn backspace_undoes_typing() {
    let mut app = app();
    app.set_input("ab你");
    app.handle_key(KeyInput::plain(KeyCode::Left));
    let (input, cursor) = (app.input.clone(), app.cursor);
    app.handle_key(KeyInput::plain(KeyCode::Char('好')));
    assert_eq!(app.input, "ab好你");
    app.handle_key(KeyInput::plain(KeyCode::Backspace));
    assert_eq!((app.input.clone(), app.cursor), (input, cursor));
}

#[test]
fn cursor_keys_move_over_whole_characters() {
    let mut app = app();
    app.set_input("a你b");
    assert_eq!(app.cursor, 5);
    app.handle_key(KeyInput::plain(KeyCode::Left));
    assert_eq!(app.cursor, 4);
    app.handle_key(KeyInput::plain(KeyCode::Left));
    assert_eq!(app.cursor, 1);
    app.handle_key(KeyInput::plain(KeyCode::Home));
    assert_eq!(app.cursor, 0);
    assert!(!app.handle_key(KeyInput::plain(KeyCode::Backspace)) || app.input == "a你b");
    app.handle_key(KeyInput::plain(KeyCode::Right));
    assert_eq!(app.cursor, 1);
    app.handle_key(KeyInput::plain(KeyCode::End));
    assert_eq!(app.cursor, 5);
    assert!(!app.handle_key(KeyInput::plain(KeyCode::Right)));
    assert!(!app.handle_key(KeyInput::plain(KeyCode::Delete)));
}

#[test]
fn quit_keys_and_commands_stop_the_screen() {
    let mut app = app();
    assert!(!app.should_quit());
    app.handle_key(KeyInput { code: KeyCode::Char('c'), control: true, alt: false });
    assert!(app.should_quit());

    let mut app = self::app();
    app.input = "/quit".to_owned();
    app.submit();
    assert!(app.should_quit());
}

#[test]
fn help_and_clear_commands_post_notices() {
    let mut app = app();
    app.input = "/help".to_owned();
    app.submit();
    assert!(app.messages.last().unwrap().content.starts_with("/clear："));
    assert_eq!(app.messages.last().unwrap().role, Role::System);

    app.input = " /clear ".to_owned();
    app.submit();
    assert_eq!(app.messages.len(), 1);
    assert_eq!(app.messages[0].content, "已新开对话。");
    assert_eq!(app.generation, 1);
}

#[test]
fn mouse_wheel_scrolls_three_lines() {
    let mut app = app();
    app.conversation_scroll.offset = 10;
    app.handle_mouse(MouseInput::ScrollUp);
    assert_eq!(app.conversation_scroll.offset, 7);
    assert!(!app.conversation_scroll.follow_tail);
    app.handle_mouse(MouseInput::ScrollDown);
    assert_eq!(app.conversation_scroll.offset, 10);
    assert!(!app.handle_mouse(MouseInput::Other));
}

#[test]
fn polling_a_closed_channel_ends_the_running_reply() {
    let (commands, _command_rx) = mpsc::unbounded_channel();
    let (event_tx, events_rx) = mpsc::unbounded_channel();
    let mut app = App::new("test".to_owned(), commands, events_rx);
    event_tx
        .send(ApplicationEvent {
            generation: 0,
            kind: ConversationEvent::ReplyDelta("片段".to_owned()),
        })
        .unwrap();
    drop(event_tx);
    app.busy = true;
    assert_eq!(app.poll_application(), EventPoll::Handled { dirty: true });
    assert_eq!(app.poll_application(), EventPoll::Drained { dirty: true });
    assert!(!app.busy);
    assert_eq!(
        app.messages.last().unwrap().content,
        "片段\n\n[请求失败：后台任务已停止，请重新启动应用。]"
    );
    assert_eq!(app.poll_application(), EventPoll::Drained { dirty: false });
}

#[test]
fn status_line_shows_state_and_buffered_count() {
    let mut app = app();
    assert_eq!(
        app.status().to_string(),
        " 就绪 │ test-model │ PgUp/PgDn 滚动  Ctrl+L 清空  Esc 退出"
    );
    app.busy = true;
    app.buffered_inputs.push_back("x".to_owned());
    app.buffered_inputs.push_back("y".to_owned());
    assert_eq!(
        app.status().to_string(),
        " 思考中… · 已缓冲 2 条 │ test-model │ PgUp/PgDn 滚动  Ctrl+L 清空  Esc 退出"
    );
    app.streaming_message = Some(0);
    assert!(app.status().to_string().starts_with(" 回复中…"));
}

#[test]
fn input_view_keeps_the_cursor_in_the_box() {
    let mut app = app();
    app.set_input("ab你好");
    assert_eq!(app.input_view(4), (2, 4));
    assert_eq!(app.input_view(20), (0, 6));
}

#[test]
fn received_events_are_applied_by_generation() {
    let mut app = app();
    let before = app.messages.len();
    assert_eq!(app.apply_received(Received::Empty), EventPoll::Drained { dirty: false });
    assert_eq!(app.apply_received(Received::Disconnected), EventPoll::Drained { dirty: false });
    assert_eq!(app.messages.len(), before);

    let stale = ApplicationEvent { generation: 7, kind: ConversationEvent::Reply("旧".to_owned()) };
    assert_eq!(app.apply_received(Received::Event(stale)), EventPoll::Handled { dirty: false });
    assert_eq!(app.messages.len(), before);

    app.busy = true;
    let delta = ApplicationEvent { generation: 0, kind: ConversationEvent::ReplyDelta("片".to_owned()) };
    assert_eq!(app.apply_received(Received::Event(delta)), EventPoll::Handled { dirty: true });
    assert_eq!(app.apply_received(Received::Disconnected), EventPoll::Drained { dirty: true });
    assert!(!app.busy);
    assert_eq!(
        app.messages.last().unwrap().content,
        "片\n\n[请求失败：后台任务已停止，请重新启动应用。]"
    );
}

#[test]
fn recorded_answers_decide_what_the_screen_shows() {
    let mut accepted = app();
    accepted.record_chat("你好".to_owned(), true);
    assert!(accepted.busy);
    assert_eq!(accepted.messages.last().unwrap().content, "你好");

    let mut refused = app();
    refused.record_chat("你好".to_owned(), false);
    assert!(!refused.busy);
    assert_eq!(
        refused.messages.last().unwrap().content,
        "后台任务已停止，请退出并重新启动应用。"
    );
}
