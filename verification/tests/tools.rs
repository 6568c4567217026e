use open_kanojyo::error::{AppError, UserFacingError};
use open_kanojyo::settings::{parse_bool, parse_max_tokens, parse_u64};
use open_kanojyo::skills::SkillRegistry;
use open_kanojyo::tools::{
    shell_output, Capped, LoadSkillArgs, LoadSkillOutput, LoadSkillTool, ShellArgs, ShellTool,
};

fn tool() -> LoadSkillTool {
    LoadSkillTool::new(SkillRegistry::new().with_parts("test", "测试 Skill", "  完整指令。  "))
}

#[test]
fn loads_enabled_skill_instructions_by_name() {
    let output = tool()
        .call(LoadSkillArgs {
            name: "test".to_owned(),
        })
        .unwrap();

    assert_eq!(
        output,
        LoadSkillOutput {
            name: "test".to_owned(),
            instructions: "完整指令。".to_owned(),
        }
    );
}

#[test]
fn rejects_unknown_skill_names() {
    let error = tool()
        .call(LoadSkillArgs {
            name: "missing".to_owned(),
        })
        .unwrap_err();

    assert_eq!(
        error.to_string(),
        "未找到该 Skill，请使用提示词中列出的名称"
    );
}

#[test]
fn rejects_blank_commands() {
    let error = ShellTool
        .prepare(ShellArgs {
            command: "   ".to_owned(),
        })
        .unwrap_err();

    assert_eq!(error.to_string(), "命令不能为空");
}

#[test]
fn commands_are_trimmed() {
    assert_eq!(
        ShellTool.prepare(ShellArgs { command: "  ls -l\n".to_owned() }).unwrap(),
        "ls -l"
    );
}

#[test]
fn shell_description_names_its_limits() {
    let description = ShellTool.description();
    assert!(description.contains("超过 30 秒"));
    assert!(description.contains("最多保留 8000 字节"));
}

#[test]
fn user_facing_errors_hide_internal_details() {
    let error = AppError::MissingFinalResponse.user_facing();
    assert!(error.retryable());
}

#[test]
fn every_model_failure_gets_the_same_message() {
    let a = AppError::ModelRequest.user_facing();
    let b = AppError::MissingFinalResponse.user_facing();
    assert_eq!(a, b);
    assert_eq!(
        a.message(),
        "请求失败：模型请求失败，请检查网络、模型配置和服务状态后重试。"
    );
    let custom = UserFacingError::new("x", false);
    assert!(!custom.retryable());
}

#[test]
fn capped_output_keeps_a_prefix_and_marks_truncation() {
    let mut out = Capped::default();
    out.push(b"hello ", 8);
    assert_eq!(out.bytes, b"hello ");
    assert!(!out.truncated);
    out.push(b"world", 8);
    assert_eq!(out.bytes, b"hello wo");
    assert!(out.truncated);
    out.push(b"!", 8);
    assert_eq!(out.bytes, b"hello wo");
}

#[test]
fn capped_output_exactly_at_the_limit_is_not_truncated() {
    let mut out = Capped::default();
    out.push(b"abcd", 4);
    assert_eq!(out.bytes, b"abcd");
    assert!(!out.truncated);
}

#[test]
fn shell_output_decodes_both_streams() {
    let mut out = Capped::default();
    out.push("你好".as_bytes(), 100);
    let mut err = Capped::default();
    err.push(&[0xff, b'a'], 100);
    let report = shell_output("echo", "/tmp".to_owned(), Some(0), false, &out, &err).unwrap();
    assert_eq!(report.stdout, "你好");
    assert_eq!(report.stderr, "\u{fffd}a");
    assert!(!report.truncated);
    assert_eq!(report.exit_code, Some(0));

    err.failed = true;
    let error = shell_output("echo", "/tmp".to_owned(), None, true, &out, &err).unwrap_err();
    assert_eq!(error.to_string(), "读取 shell 子进程输出失败");
}

#[test]
fn settings_parse_like_std() {
    assert_eq!(parse_bool("true"), Some(true));
    assert_eq!(parse_bool("false"), Some(false));
    assert_eq!(parse_bool("True"), None);
    assert_eq!(parse_u64("1024"), Some(1024));
    assert_eq!(parse_u64("+7"), Some(7));
    assert_eq!(parse_u64("18446744073709551615"), Some(u64::MAX));
    assert_eq!(parse_u64("18446744073709551616"), None);
    assert_eq!(parse_u64(""), None);
    assert_eq!(parse_u64("+"), None);
    assert_eq!(parse_u64("1 2"), None);
    assert_eq!(parse_max_tokens("0"), None);
    assert_eq!(parse_max_tokens("512"), Some(512));
    for text in ["0", "42", "+3", "-1", "9x", "99999999999999999999"] {
        assert_eq!(parse_u64(text), text.parse::<u64>().ok());
    }
}
