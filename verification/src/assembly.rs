//! What the assistant is assembled from, decided from the configuration's
//! switches: the enabled skills, the preamble and context documents, and
//! which tools are mounted. Building the model client from this plan
//! happens outside.

use vstd::prelude::*;
use crate::capability::{CapabilitySummary, summary_views};
use crate::persona::PersonaPrompt;
use crate::prompt::{PromptContext, preamble_text, document_text};
use crate::skills::{ConversationSkill, Skill, SkillRegistry, CONVERSATION_DESCRIPTION, CONVERSATION_INSTRUCTIONS};
use crate::text::{push_text, views};
use crate::tools::{LoadSkillTool, ShellTool, LOAD_SKILL_NAME, SHELL_NAME, shell_description, DEFAULT_TIMEOUT_SECS, DEFAULT_MAX_OUTPUT_BYTES};

verus! {

/// Everything the assistant is assembled from.
pub struct AgentPlan {
    /// `model @ base_url`, shown in the status line.
    pub provider_label: String,
    /// The enabled skills.
    pub skills: SkillRegistry,
    /// Name and description of each enabled skill.
    pub skill_summaries: Vec<CapabilitySummary>,
    /// The system preamble.
    pub preamble: String,
    /// Extra context documents.
    pub documents: Vec<String>,
    /// Whether the skill loader tool is mounted.
    pub mount_skill_loader: bool,
    /// Whether the shell tool is mounted.
    pub mount_shell: bool,
    /// Name and description of each mounted tool, in mounting order.
    pub tool_summaries: Vec<CapabilitySummary>,
}

/// The skills enabled by the switch: the conversation skill, or none.
pub open spec fn enabled_skills(enable_skills: bool) -> Seq<(Seq<char>, Seq<char>, Seq<char>)> {
    if enable_skills {
        seq![("conversation"@, CONVERSATION_DESCRIPTION@, CONVERSATION_INSTRUCTIONS@)]
    } else {
        Seq::empty()
    }
}

/// The description of the skill loader tool.
pub open spec fn loader_description() -> Seq<char> {
    "按名称加载一个已启用 Skill 的完整指令。仅在当前任务符合提示词所列 Skill 的适用范围时调用。"@
}

/// The mounted tools: the skill loader when skills are enabled, then the
/// shell when tools are enabled.
pub open spec fn mounted_tools(enable_skills: bool, enable_tools: bool) -> Seq<(Seq<char>, Seq<char>)> {
    let loader: Seq<(Seq<char>, Seq<char>)> = if enable_skills {
        seq![(LOAD_SKILL_NAME@, loader_description())]
    } else {
        Seq::empty()
    };
    let shell: Seq<(Seq<char>, Seq<char>)> = if enable_tools {
        seq![(SHELL_NAME@, shell_description(DEFAULT_TIMEOUT_SECS as nat, DEFAULT_MAX_OUTPUT_BYTES as nat))]
    } else {
        Seq::empty()
    };
    loader + shell
}

/// Decides what the assistant is assembled from.
pub fn plan_agent(model: &str, base_url: &str, enable_skills: bool, enable_tools: bool) -> (plan: AgentPlan)
    ensures
        plan.provider_label@ == model@ + " @ "@ + base_url@,
        plan.skills@ == enabled_skills(enable_skills),
        plan.mount_skill_loader == enable_skills,
        plan.mount_shell == enable_tools,
        summary_views(plan.skill_summaries@) == plan.skills@.map_values(
            |e: (Seq<char>, Seq<char>, Seq<char>)| (e.0, e.1),
        ),
        plan.preamble@ == preamble_text(""@, PersonaPrompt::standard_view(), summary_views(plan.skill_summaries@)),
        plan.documents@.len() == 0,
        plan.tool_summaries@.map_values(|t: CapabilitySummary| (t.name@, t.description@))
            == mounted_tools(enable_skills, enable_tools),
{
    let mut provider_label = String::new();
    push_text(&mut provider_label, model);
    push_text(&mut provider_label, " @ ");
    push_text(&mut provider_label, base_url);
    let skills = if enable_skills {
        let skill = ConversationSkill;
        SkillRegistry::new().with_parts(skill.name(), skill.description(), skill.instructions())
    } else {
        SkillRegistry::new()
    };
    assert(skills@ =~= enabled_skills(enable_skills));
    let context = PromptContext::standard().with_skills(&skills);
    let skill_summaries = context.skill_summaries();
    let preamble = context.render_preamble();
    let documents = context.render_documents();
    let mount_skill_loader = !skills.is_empty();
    let mut tool_summaries: Vec<CapabilitySummary> = Vec::new();
    if mount_skill_loader {
        let loader = LoadSkillTool::new(SkillRegistry::new());
        let description = loader.description();
        tool_summaries.push(CapabilitySummary { name: LOAD_SKILL_NAME.to_owned(), description });
    }
    if enable_tools {
        let description = ShellTool.description();
        tool_summaries.push(CapabilitySummary { name: SHELL_NAME.to_owned(), description });
    }
    assert(documents@.len() == 0) by {
        assert(context.documents_view().len() == 0);
        assert(views(documents@).len() == documents@.len());
    }
    assert(tool_summaries@.map_values(|t: CapabilitySummary| (t.name@, t.description@))
        =~= mounted_tools(enable_skills, enable_tools));
    AgentPlan {
        provider_label,
        skills,
        skill_summaries,
        preamble,
        documents,
        mount_skill_loader,
        mount_shell: enable_tools,
        tool_summaries,
    }
}

/// Whether a tool called `name` is among `tools`.
pub open spec fn lists_tool(tools: Seq<(Seq<char>, Seq<char>)>, name: Seq<char>) -> bool {
    exists|i: int| 0 <= i < tools.len() && (#[trigger] tools[i]).0 == name
}

/// The tool summaries name exactly the mounted tools: the shell is listed
/// exactly when tools are enabled, the skill loader exactly when skills are,
/// and nothing else is listed.
pub proof fn lemma_summaries_list_mounted_tools(enable_skills: bool, enable_tools: bool)
    ensures
        lists_tool(mounted_tools(enable_skills, enable_tools), "shell"@) == enable_tools,
        lists_tool(mounted_tools(enable_skills, enable_tools), "load_skill"@) == enable_skills,
        forall|i: int| 0 <= i < mounted_tools(enable_skills, enable_tools).len() ==>
            (#[trigger] mounted_tools(enable_skills, enable_tools)[i]).0 == "shell"@
                || mounted_tools(enable_skills, enable_tools)[i].0 == "load_skill"@,
{
    reveal_strlit("shell");
    reveal_strlit("load_skill");
    let tools = mounted_tools(enable_skills, enable_tools);
    assert("shell"@ != "load_skill"@) by {
        assert("shell"@.len() != "load_skill"@.len());
    }
    if enable_skills {
        assert(tools[0].0 == "load_skill"@);
    }
    if enable_tools {
        assert(tools[tools.len() - 1].0 == "shell"@);
    }
}

} // verus!
