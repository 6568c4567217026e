//! The logic of the model's tools: loading a skill's instructions, and
//! checking a shell command and collecting its bounded output.

use vstd::prelude::*;
use vstd::utf8::{valid_utf8, decode_utf8};
use crate::error::ToolInputError;
use crate::skills::{SkillRegistry, first_named};
use crate::text::{trim, trimmed, push_text, push_decimal, decimal};

verus! {

/// Arguments of the skill loader: a skill name from the prompt's catalog.
#[derive(Clone, Debug, PartialEq, Eq)]
pub struct LoadSkillArgs {
    pub name: String,
}

/// What the skill loader returns.
#[derive(Clone, Debug, PartialEq, Eq)]
pub struct LoadSkillOutput {
    pub name: String,
    pub instructions: String,
}

/// The tool that hands the full instructions of an enabled skill to the
/// model.
#[derive(Debug)]
pub struct LoadSkillTool {
    skills: SkillRegistry,
}

/// Name under which the skill loader is offered.
pub const LOAD_SKILL_NAME: &'static str = "load_skill";

/// Name under which the shell tool is offered.
pub const SHELL_NAME: &'static str = "shell";

/// The error of the skill loader for a name that is not in the catalog.
pub open spec fn unknown_skill_message() -> Seq<char> {
    "未找到该 Skill，请使用提示词中列出的名称"@
}

impl LoadSkillTool {
    pub closed spec fn skills_view(&self) -> Seq<(Seq<char>, Seq<char>, Seq<char>)> {
        self.skills@
    }

    /// A loader over the given skills.
    pub fn new(skills: SkillRegistry) -> (r: Self)
        ensures
            r.skills_view() == skills@,
    {
        LoadSkillTool { skills }
    }

    /// What the tool says of itself to the model.
    pub fn description(&self) -> (r: String)
        ensures
            r@ == "按名称加载一个已启用 Skill 的完整指令。仅在当前任务符合提示词所列 Skill 的适用范围时调用。"@,
    {
        "按名称加载一个已启用 Skill 的完整指令。仅在当前任务符合提示词所列 Skill 的适用范围时调用。".to_owned()
    }

    /// The trimmed instructions of the first skill with the requested name,
    /// or an error that points the model back to the catalog.
    pub fn call(&self, args: LoadSkillArgs) -> (r: Result<LoadSkillOutput, ToolInputError>)
        ensures
            match first_named(self.skills_view(), args.name@) {
                Some(i) => r matches Ok(out) && out.name@ == self.skills_view()[i].0
                    && out.instructions@ == trimmed(self.skills_view()[i].2),
                None => r matches Err(e) && e.0@ == unknown_skill_message(),
            },
    {
        match self.skills.get(args.name.as_str()) {
            Some(skill) => Ok(LoadSkillOutput {
                name: skill.name.clone(),
                instructions: trim(skill.instructions.as_str()),
            }),
            None => Err(ToolInputError("未找到该 Skill，请使用提示词中列出的名称")),
        }
    }
}

/// Arguments of the shell tool: one command line for `sh -c`.
#[derive(Clone, Debug, PartialEq, Eq)]
pub struct ShellArgs {
    pub command: String,
}

/// What the shell tool reports of a command.
#[derive(Clone, Debug, PartialEq, Eq)]
pub struct ShellOutput {
    pub command: String,
    pub working_directory: String,
    /// `None` when the command was killed by a signal or timed out.
    pub exit_code: Option<i32>,
    /// On a timeout, the output read so far.
    pub stdout: String,
    pub stderr: String,
    pub truncated: bool,
    pub timed_out: bool,
}

/// The tool that runs a shell command.
#[derive(Clone, Copy, Debug, Default)]
pub struct ShellTool;

/// Seconds after which a shell command is killed.
pub const DEFAULT_TIMEOUT_SECS: u64 = 30;

/// Bytes of each of stdout and stderr that are kept.
pub const DEFAULT_MAX_OUTPUT_BYTES: usize = 8000;

/// The error for a blank command.
pub open spec fn blank_command_message() -> Seq<char> {
    "命令不能为空"@
}

/// What the shell tool says of itself, with its limits filled in.
pub open spec fn shell_description(timeout_secs: nat, max_bytes: nat) -> Seq<char> {
    "在当前工作目录下用 `sh -c` 执行一条 shell 命令，返回退出码、标准输出和标准错误。命令对用户机器有真实副作用，只在用户明确要求时执行，破坏性操作先向用户确认。超过 "@
        + decimal(timeout_secs)
        + " 秒会被终止并返回 timed_out，同时保留已经产生的部分输出；stdout 和 stderr 各自最多保留 "@
        + decimal(max_bytes)
        + " 字节，超出部分丢弃并将 truncated 置为 true。非零退出码是正常结果，不是工具错误。"@
}

impl ShellTool {
    /// What the tool says of itself to the model.
    pub fn description(&self) -> (r: String)
        ensures
            r@ == shell_description(DEFAULT_TIMEOUT_SECS as nat, DEFAULT_MAX_OUTPUT_BYTES as nat),
    {
        let mut r = String::new();
        push_text(&mut r, "在当前工作目录下用 `sh -c` 执行一条 shell 命令，返回退出码、标准输出和标准错误。命令对用户机器有真实副作用，只在用户明确要求时执行，破坏性操作先向用户确认。超过 ");
        push_decimal(&mut r, DEFAULT_TIMEOUT_SECS as usize);
        push_text(&mut r, " 秒会被终止并返回 timed_out，同时保留已经产生的部分输出；stdout 和 stderr 各自最多保留 ");
        push_decimal(&mut r, DEFAULT_MAX_OUTPUT_BYTES);
        push_text(&mut r, " 字节，超出部分丢弃并将 truncated 置为 true。非零退出码是正常结果，不是工具错误。");
        r
    }

    /// The command line to run: the argument without surrounding
    /// whitespace, or an error when nothing is left.
    pub fn prepare(&self, args: ShellArgs) -> (r: Result<String, ToolInputError>)
        ensures
            trimmed(args.command@).len() == 0 ==> (r matches Err(e) && e.0@ == blank_command_message()),
            trimmed(args.command@).len() > 0 ==> (r matches Ok(c) && c@ == trimmed(args.command@)),
    {
        let command = trim(args.command.as_str());
        if command.as_str().is_empty() {
            Err(ToolInputError("命令不能为空"))
        } else {
            Ok(command)
        }
    }
}

/// Time and size limits of one shell command.
#[derive(Clone, Copy, Debug)]
pub struct Limits {
    pub timeout_millis: u64,
    pub max_output_bytes: usize,
}

impl Limits {
    /// Thirty seconds and eight thousand bytes per stream.
    pub fn standard() -> (r: Self)
        ensures
            r.timeout_millis == DEFAULT_TIMEOUT_SECS * 1000,
            r.max_output_bytes == DEFAULT_MAX_OUTPUT_BYTES,
    {
        Limits { timeout_millis: DEFAULT_TIMEOUT_SECS * 1000, max_output_bytes: DEFAULT_MAX_OUTPUT_BYTES }
    }
}

/// The bounded buffer of one output stream of a command.
#[derive(Clone, Debug, Default)]
pub struct Capped {
    pub bytes: Vec<u8>,
    pub truncated: bool,
    pub failed: bool,
}

/// The kept bytes and the truncation flag after one more chunk: what fits
/// below `limit` is appended, and the flag is set when anything was left
/// out or the buffer was already full.
pub open spec fn capped_push(bytes: Seq<u8>, truncated: bool, chunk: Seq<u8>, limit: nat) -> (Seq<u8>, bool) {
    let room: int = if bytes.len() >= limit { 0 } else { limit - bytes.len() };
    if room == 0 {
        (bytes, true)
    } else {
        let take: int = if chunk.len() < room { chunk.len() as int } else { room };
        (bytes + chunk.take(take), truncated || take < chunk.len())
    }
}

impl Capped {
    /// Keeps as much of `chunk` as fits below `limit` bytes and records
    /// whether anything was dropped.
    pub fn push(&mut self, chunk: &[u8], limit: usize)
        ensures
            (final(self).bytes@, final(self).truncated) == capped_push(
                old(self).bytes@,
                old(self).truncated,
                chunk@,
                limit as nat,
            ),
            final(self).failed == old(self).failed,
    {
        let room: usize = if self.bytes.len() >= limit { 0 } else { limit - self.bytes.len() };
        if room == 0 {
            self.truncated = true;
            return;
        }
        let take: usize = if chunk.len() < room { chunk.len() } else { room };
        let ghost start = self.bytes@;
        for i in 0..take
            invariant
                take <= chunk@.len(),
                start == old(self).bytes@,
                self.bytes@ == start + chunk@.take(i as int),
                self.truncated == old(self).truncated,
                self.failed == old(self).failed,
        {
            self.bytes.push(chunk[i]);
            assert(start + chunk@.take(i + 1) =~= (start + chunk@.take(i as int)).push(chunk@[i as int]));
        }
        if take < chunk.len() {
            self.truncated = true;
        }
    }
}

/// The kept bytes and the truncation flag after pushing `chunks` in order
/// into an empty buffer.
pub open spec fn capped_feed(chunks: Seq<Seq<u8>>, limit: nat) -> (Seq<u8>, bool)
    decreases chunks.len(),
{
    if chunks.len() == 0 {
        (Seq::empty(), false)
    } else {
        let prev = capped_feed(chunks.drop_last(), limit);
        capped_push(prev.0, prev.1, chunks.last(), limit)
    }
}

proof fn lemma_capped_feed_alt(chunks: Seq<Seq<u8>>, limit: nat)
    requires
        forall|i: int| 0 <= i < chunks.len() ==> #[trigger] chunks[i].len() > 0,
    ensures
        ({
            let all = chunks.flatten_alt();
            let kept: int = if all.len() < limit { all.len() as int } else { limit as int };
            capped_feed(chunks, limit) == (all.take(kept), all.len() > limit)
        }),
    decreases chunks.len(),
{
    let all = chunks.flatten_alt();
    if chunks.len() == 0 {
        assert(all.take(0) =~= Seq::<u8>::empty());
    } else {
        let front = chunks.drop_last();
        assert forall|i: int| 0 <= i < front.len() implies #[trigger] front[i].len() > 0 by {
            assert(front[i] == chunks[i]);
        }
        lemma_capped_feed_alt(front, limit);
        let f = front.flatten_alt();
        let c = chunks.last();
        assert(c == chunks[chunks.len() - 1]);
        assert(all == f + c);
        if f.len() >= limit {
            assert(f.take(limit as int) =~= all.take(limit as int));
        } else {
            assert(f.take(f.len() as int) =~= f);
            let room = limit - f.len();
            let take: int = if c.len() < room { c.len() as int } else { room };
            assert(f + c.take(take) =~= all.take(f.len() + take));
        }
    }
}

/// Pushing non-empty chunks one after another keeps exactly the first
/// `limit` bytes of their concatenation, and marks the buffer truncated
/// exactly when the concatenation is longer than `limit`.
pub proof fn lemma_capped_keeps_prefix(chunks: Seq<Seq<u8>>, limit: nat)
    requires
        forall|i: int| 0 <= i < chunks.len() ==> #[trigger] chunks[i].len() > 0,
    ensures
        ({
            let all = chunks.flatten();
            let kept: int = if all.len() < limit { all.len() as int } else { limit as int };
            capped_feed(chunks, limit) == (all.take(kept), all.len() > limit)
        }),
{
    lemma_capped_feed_alt(chunks, limit);
    chunks.lemma_flatten_and_flatten_alt_are_equivalent();
}

/// Text decoded from bytes with invalid sequences replaced.
pub uninterp spec fn lossy_text(bytes: Seq<u8>) -> Seq<char>;

/// `String::from_utf8_lossy` from `std`: valid UTF-8 is decoded as it is,
/// anything else with replacement characters.
#[verifier::external_body]
pub(crate) fn utf8_lossy(bytes: &[u8]) -> (s: String)
    ensures
        s@ == lossy_text(bytes@),
        valid_utf8(bytes@) ==> s@ == decode_utf8(bytes@),
{
    String::from_utf8_lossy(bytes).into_owned()
}

/// The error when one of the output streams could not be read.
pub open spec fn read_failure_message() -> Seq<char> {
    "读取 shell 子进程输出失败"@
}

/// The report of a finished command: an error if reading either stream
/// failed, otherwise the decoded output of both streams.
pub fn shell_output(
    command: &str,
    working_directory: String,
    exit_code: Option<i32>,
    timed_out: bool,
    out: &Capped,
    err: &Capped,
) -> (r: Result<ShellOutput, ToolInputError>)
    ensures
        (out.failed || err.failed) ==> (r matches Err(e) && e.0@ == read_failure_message()),
        !(out.failed || err.failed) ==> (r matches Ok(o) && {
            &&& o.command@ == command@
            &&& o.working_directory@ == working_directory@
            &&& o.exit_code == exit_code
            &&& o.stdout@ == lossy_text(out.bytes@)
            &&& o.stderr@ == lossy_text(err.bytes@)
            &&& o.truncated == (out.truncated || err.truncated)
            &&& o.timed_out == timed_out
        }),
{
    if out.failed || err.failed {
        return Err(ToolInputError("读取 shell 子进程输出失败"));
    }
    Ok(ShellOutput {
        command: command.to_owned(),
        working_directory,
        exit_code,
        stdout: utf8_lossy(out.bytes.as_slice()),
        stderr: utf8_lossy(err.bytes.as_slice()),
        truncated: out.truncated || err.truncated,
        timed_out,
    })
}

} // verus!
