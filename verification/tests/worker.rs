use open_kanojyo::ui::scroll::ScrollState;
use open_kanojyo::assembly::plan_agent;
use open_kanojyo::error::AppError;
use open_kanojyo::protocol::{ApplicationCommand, ConversationEvent, StreamUpdate};
use open_kanojyo::reply::{History, ItemAction, ReplyProgress, StreamItem};
use open_kanojyo::worker::{reply_event, stream_event, ReplyControl, Worker, WorkerAction};

#[test]
fn chats_arriving_during_a_reply_wait_in_order() {
    let mut worker = Worker::new();
    for input in ["一", "二"] {
        let control = worker.during_reply(ApplicationCommand::Chat {
            generation: 3,
            input: input.to_owned(),
        });
        assert_eq!(control, ReplyControl::Continue);
    }
    assert!(matches!(
        worker.take_pending(),
        Some(ApplicationCommand::Chat { input, .. }) if input == "一"
    ));
    assert!(matches!(
        worker.take_pending(),
        Some(ApplicationCommand::Chat { input, .. }) if input == "二"
    ));
    assert!(worker.take_pending().is_none());
}

#[test]
fn clear_cancels_the_reply_and_drops_pending_chats() {
    let mut worker = Worker::new();
    worker.during_reply(ApplicationCommand::Chat {
        generation: 0,
        input: "x".to_owned(),
    });
    assert_eq!(worker.during_reply(ApplicationCommand::Clear), ReplyControl::Cancel);
    assert!(worker.take_pending().is_none());
    assert!(matches!(
        worker.on_command(ApplicationCommand::Clear),
        WorkerAction::ClearConversation
    ));
    assert!(matches!(
        worker.on_command(ApplicationCommand::Chat { generation: 2, input: "问".to_owned() }),
        WorkerAction::StartReply { generation: 2, input } if input == "问"
    ));
}

#[test]
fn replies_and_updates_become_events_of_their_generation() {
    let event = reply_event(4, Ok("答".to_owned()));
    assert_eq!(event.generation, 4);
    assert!(matches!(event.kind, ConversationEvent::Reply(text) if text == "答"));
    let event = reply_event(5, Err(AppError::ModelRequest));
    assert!(matches!(event.kind, ConversationEvent::Error(e) if e.retryable()));
    let event = stream_event(6, StreamUpdate::Text("片".to_owned()));
    assert!(matches!(event.kind, ConversationEvent::ReplyDelta(text) if text == "片"));
    assert!(matches!(stream_event(6, StreamUpdate::Reset).kind, ConversationEvent::ReplyReset));
}

#[test]
fn plan_mounts_tools_by_switch() {
    let plan = plan_agent("gpt", "https://x", false, false);
    assert_eq!(plan.provider_label, "gpt @ https://x");
    assert!(plan.skills.is_empty());
    assert!(plan.tool_summaries.is_empty());
    assert!(plan.preamble.starts_with("# 人物提示词"));

    let plan = plan_agent("gpt", "https://x", true, true);
    assert!(plan.mount_skill_loader && plan.mount_shell);
    let names: Vec<_> = plan.tool_summaries.iter().map(|t| t.name.as_str()).collect();
    assert_eq!(names, ["load_skill", "shell"]);
    assert_eq!(plan.skill_summaries[0].name, "conversation");
    assert!(plan.preamble.contains("- `conversation`："));
}

#[test]
fn scrolling_back_down_returns_to_the_end() {
    let mut s = ScrollState::default();
    assert_eq!(s.resolve(50, 10), 40);
    s.up(7);
    assert_eq!(s.resolve(50, 10), 33);
    assert!(!s.follow_tail);
    s.down(7);
    assert_eq!(s.resolve(50, 10), 40);
    assert!(s.follow_tail);
    assert_eq!(s.resolve(80, 10), 70);
}

#[test]
fn stream_items_become_updates_and_the_final_output() {
    let mut progress = ReplyProgress::new();
    assert!(matches!(
        progress.on_item(StreamItem::Text("你好".to_string())),
        ItemAction::Show(StreamUpdate::Text(ref t)) if t == "你好"
    ));
    assert!(matches!(progress.on_item(StreamItem::Retried), ItemAction::Show(StreamUpdate::Reset)));
    assert!(matches!(progress.on_item(StreamItem::Other), ItemAction::Continue));
    assert!(matches!(progress.on_item(StreamItem::Final("你好。".to_string())), ItemAction::Continue));
    assert_eq!(progress.finish().unwrap(), "你好。");
}

#[test]
fn stream_without_final_response_or_with_error_fails() {
    let mut progress = ReplyProgress::new();
    assert!(matches!(progress.on_item(StreamItem::Text("半句".to_string())), ItemAction::Show(_)));
    assert!(matches!(progress.finish(), Err(AppError::MissingFinalResponse)));

    let mut progress = ReplyProgress::new();
    assert!(matches!(progress.on_item(StreamItem::Failed), ItemAction::Fail(AppError::ModelRequest)));
}

#[test]
fn history_takes_a_turn_only_after_success() {
    let mut history: History<u32> = History::new();
    history.settle(&Ok("好".to_owned()), Some(vec![1, 2]));
    assert_eq!(history.messages(), &[1, 2]);
    history.settle(&Err(AppError::ModelRequest), Some(vec![9]));
    assert_eq!(history.messages(), &[1, 2]);
    history.settle(&Ok("好".to_owned()), None);
    assert_eq!(history.messages(), &[1, 2]);
    history.clear();
    assert!(history.messages().is_empty());
}

#[test]
fn model_errors_describe_themselves() {
    assert_eq!(AppError::ModelRequest.to_string(), "模型流式请求失败");
    assert_eq!(AppError::MissingFinalResponse.to_string(), "模型流式响应未返回结束事件");
}
