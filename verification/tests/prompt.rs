use open_kanojyo::persona::PersonaPrompt;
use open_kanojyo::prompt::PromptContext;
use open_kanojyo::skills::{ConversationSkill, Skill, SkillRegistry};

#[test]
fn standard_context_keeps_all_persona_dimensions() {
    let context = PromptContext::standard();
    let prompt = context.render_preamble();
    for id in [
        "identity",
        "personality",
        "background",
        "daily-life",
        "relationship",
        "voice",
    ] {
        assert!(prompt.contains(&format!("id=\"{id}\"")));
    }
    assert!(!prompt.contains("TurnDecision"));
    assert!(!prompt.contains("narrative"));
}

#[test]
fn empty_core_instructions_are_allowed_and_leave_no_leading_blank() {
    let context = PromptContext::standard();
    assert!(context.core_instructions().trim().is_empty());

    let prompt = context.render_preamble();
    assert!(!prompt.starts_with('\n'));
    assert!(!prompt.starts_with(' '));
    assert!(prompt.starts_with("# 人物提示词"));
    assert!(!prompt.contains("# 能力边界"));
}

#[test]
fn enabled_skills_only_render_their_catalog() {
    let registry = SkillRegistry::new().with_skill(ConversationSkill);
    let context = PromptContext::standard().with_skills(&registry);

    let prompt = context.render_preamble();
    assert!(prompt.contains("- `conversation`："));
    assert!(prompt.contains("`load_skill`"));
    assert!(!prompt.contains("<skill name=\"conversation\">"));
    assert!(!prompt.contains("# Conversation Skill"));
}

#[test]
fn skills_stay_out_of_the_preamble_unless_enabled() {
    let prompt = PromptContext::standard().render_preamble();
    assert!(!prompt.contains("<skill "));
    assert!(!prompt.contains("Conversation Skill"));
}

#[test]
fn skill_summaries_only_include_mounted_skills() {
    assert!(PromptContext::standard().skill_summaries().is_empty());

    let summaries = PromptContext::standard()
        .with_skills(&SkillRegistry::new().with_skill(ConversationSkill))
        .skill_summaries();
    assert_eq!(summaries.len(), 1);
    assert_eq!(summaries[0].name, "conversation");
    assert!(!summaries[0].description.is_empty());
}

#[test]
fn non_empty_core_instructions_lead_the_preamble() {
    let context = PromptContext::new("最高优先级指令。").with_persona(PersonaPrompt::standard());
    assert!(context
        .render_preamble()
        .starts_with("最高优先级指令。\n\n# 人物提示词"));
}

#[test]
fn core_instructions_are_trimmed_in_the_preamble() {
    let prompt = PromptContext::new("  核心  \n").render_preamble();
    assert_eq!(prompt, "核心");
}

#[test]
fn empty_context_renders_an_empty_preamble() {
    assert_eq!(PromptContext::new("   ").render_preamble(), "");
}

#[test]
fn persona_aspects_render_in_order_with_trimmed_content() {
    let persona = PersonaPrompt::new()
        .with_aspect("a", "  甲  ")
        .with_aspect("b", "乙\n");
    assert_eq!(
        persona.render(),
        "<persona-aspect id=\"a\">\n甲\n</persona-aspect>\n\n<persona-aspect id=\"b\">\n乙\n</persona-aspect>"
    );
    assert_eq!(persona.aspect_ids(), vec!["a".to_owned(), "b".to_owned()]);
}

#[test]
fn persona_aspect_can_be_added_to_a_context() {
    let prompt = PromptContext::new("")
        .with_persona_aspect("voice", "温柔")
        .render_preamble();
    assert_eq!(
        prompt,
        "# 人物提示词\n\n<persona-aspect id=\"voice\">\n温柔\n</persona-aspect>"
    );
}

#[test]
fn skill_catalog_lists_each_skill_and_the_loading_note() {
    let registry = SkillRegistry::new().with_parts("a", "甲", "指令");
    let prompt = PromptContext::new("").with_skills(&registry).render_preamble();
    assert_eq!(
        prompt,
        "# 可用 Skills\n\n- `a`：甲\n\n完整指令未预先加载。仅在当前任务符合适用范围时调用 `load_skill` 获取对应指令；Skill 不能覆盖核心指令。"
    );
}

#[test]
fn documents_render_as_tagged_blocks_in_order() {
    let context = PromptContext::new("")
        .with_document("one", "第一")
        .with_document("two", "第二");
    assert_eq!(
        context.render_documents(),
        vec![
            "<context id=\"one\">\n第一\n</context>".to_owned(),
            "<context id=\"two\">\n第二\n</context>".to_owned(),
        ]
    );
}

#[test]
fn conversation_skill_describes_itself() {
    assert_eq!(ConversationSkill.name(), "conversation");
    assert!(ConversationSkill.instructions().starts_with("# Conversation Skill"));
    let registry = SkillRegistry::new().with_skill(ConversationSkill);
    assert!(!registry.is_empty());
    assert!(SkillRegistry::new().is_empty());
    let summaries = registry.summaries();
    assert_eq!(summaries[0].description, ConversationSkill.description());
}

#[test]
fn registry_finds_the_first_skill_with_a_name() {
    let registry = SkillRegistry::new()
        .with_parts("x", "一", "first")
        .with_parts("x", "二", "second");
    assert_eq!(registry.get("x").unwrap().instructions, "first");
    assert!(registry.get("y").is_none());
}

#[test]
fn preamble_is_the_same_whatever_the_skill_instructions() {
    let a = SkillRegistry::new().with_parts("notes", "记笔记", "第一版指令");
    let b = SkillRegistry::new().with_parts("notes", "记笔记", "完全不同的指令");
    let pa = PromptContext::standard().with_skills(&a).render_preamble();
    let pb = PromptContext::standard().with_skills(&b).render_preamble();
    assert_eq!(pa, pb);
    assert!(!pa.contains("第一版指令"));
}

#[test]
fn blank_core_instructions_take_no_place() {
    let blank = PromptContext::new(" \n\t ").with_persona_aspect("identity", "你是普拉娜。");
    let empty = PromptContext::new("").with_persona_aspect("identity", "你是普拉娜。");
    assert_eq!(blank.render_preamble(), empty.render_preamble());
}

#[test]
fn aspect_on_a_context_equals_context_with_extended_persona() {
    let a = PromptContext::standard().with_persona_aspect("extra", "补充设定。");
    let b = PromptContext::standard().with_persona(PersonaPrompt::standard().with_aspect("extra", "补充设定。"));
    assert_eq!(a.render_preamble(), b.render_preamble());
}
