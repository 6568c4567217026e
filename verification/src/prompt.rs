//! Assembly of the prompt context: the core instructions, the persona, the
//! catalog of enabled skills and extra context documents.

use vstd::prelude::*;
use crate::capability::{CapabilitySummary, duplicate_all, same_summaries, summary_views};
use crate::persona::{PersonaPrompt, persona_text, aspect_block, aspect_blocks, IDENTITY, PERSONALITY, BACKGROUND, DAILY_LIFE, RELATIONSHIP, VOICE};
use crate::skills::SkillRegistry;
use crate::text::{
    trim, trimmed, trim_start, trim_end, joined, join_strings, views, push_text, contains_text, lemma_joined_contains,
    lemma_contains_text_middle, lemma_contains_text_trans,
};

verus! {

/// A document handed to the model as additional context.
#[derive(Clone, Debug, PartialEq, Eq)]
struct ContextDocument {
    id: String,
    content: String,
}

/// Everything the preamble and the context documents are made of.
pub struct PromptContext {
    core_instructions: String,
    persona: PersonaPrompt,
    documents: Vec<ContextDocument>,
    skills: Vec<CapabilitySummary>,
}

/// How one context document is rendered.
pub open spec fn document_text(id: Seq<char>, content: Seq<char>) -> Seq<char> {
    "<context id=\""@ + id + "\">\n"@ + content + "\n</context>"@
}

/// The catalog lines of the skills, each on a line of its own.
pub open spec fn skill_lines(skills: Seq<(Seq<char>, Seq<char>)>) -> Seq<char>
    decreases skills.len(),
{
    if skills.len() == 0 {
        Seq::empty()
    } else {
        skill_lines(skills.drop_last()) + "\n- `"@ + skills.last().0 + "`："@ + skills.last().1
    }
}

/// The preamble section that lists the enabled skills.
pub open spec fn skills_section(skills: Seq<(Seq<char>, Seq<char>)>) -> Seq<char> {
    "# 可用 Skills\n"@ + skill_lines(skills) + SKILL_NOTE@
}

/// The sections of the preamble, each present only when it has content:
/// the trimmed core instructions, the persona, the skill catalog.
pub open spec fn preamble_sections(
    core: Seq<char>,
    persona: Seq<(Seq<char>, Seq<char>)>,
    skills: Seq<(Seq<char>, Seq<char>)>,
) -> Seq<Seq<char>> {
    let a: Seq<Seq<char>> = if trimmed(core).len() > 0 { seq![trimmed(core)] } else { Seq::empty() };
    let b: Seq<Seq<char>> = if persona.len() > 0 {
        seq!["# 人物提示词\n\n"@ + persona_text(persona)]
    } else {
        Seq::empty()
    };
    let c: Seq<Seq<char>> = if skills.len() > 0 { seq![skills_section(skills)] } else { Seq::empty() };
    a + b + c
}

/// The preamble: its sections separated by blank lines.
pub open spec fn preamble_text(
    core: Seq<char>,
    persona: Seq<(Seq<char>, Seq<char>)>,
    skills: Seq<(Seq<char>, Seq<char>)>,
) -> Seq<char> {
    joined(preamble_sections(core, persona, skills), "\n\n"@)
}

impl PromptContext {
    pub closed spec fn core_view(&self) -> Seq<char> {
        self.core_instructions@
    }

    pub closed spec fn persona_view(&self) -> Seq<(Seq<char>, Seq<char>)> {
        self.persona@
    }

    pub closed spec fn documents_view(&self) -> Seq<(Seq<char>, Seq<char>)> {
        self.documents@.map_values(|d: ContextDocument| (d.id@, d.content@))
    }

    pub closed spec fn skills_view(&self) -> Seq<CapabilitySummary> {
        self.skills@
    }

    /// The core instructions as given.
    pub fn core_instructions(&self) -> (r: &str)
        ensures
            r@ == self.core_view(),
    {
        self.core_instructions.as_str()
    }

    /// A context with the given core instructions and nothing else.
    pub fn new(core_instructions: &str) -> (r: Self)
        ensures
            r.core_view() == core_instructions@,
            r.persona_view().len() == 0,
            r.documents_view().len() == 0,
            r.skills_view().len() == 0,
    {
        PromptContext {
            core_instructions: core_instructions.to_owned(),
            persona: PersonaPrompt::new(),
            documents: Vec::new(),
            skills: Vec::new(),
        }
    }

    /// The built-in context: no core instructions and the standard persona.
    pub fn standard() -> (r: Self)
        ensures
            r.core_view() == ""@,
            r.persona_view() == PersonaPrompt::standard_view(),
            r.documents_view().len() == 0,
            r.skills_view().len() == 0,
    {
        Self::new("").with_persona(PersonaPrompt::standard())
    }

    /// The context with its persona replaced.
    pub fn with_persona(self, persona: PersonaPrompt) -> (r: Self)
        ensures
            r.core_view() == self.core_view(),
            r.persona_view() == persona@,
            r.documents_view() == self.documents_view(),
            r.skills_view() == self.skills_view(),
    {
        PromptContext { persona, ..self }
    }

    /// The context with one more persona aspect.
    pub fn with_persona_aspect(self, id: &str, content: &str) -> (r: Self)
        ensures
            r.core_view() == self.core_view(),
            r.persona_view() == self.persona_view().push((id@, content@)),
            r.documents_view() == self.documents_view(),
            r.skills_view() == self.skills_view(),
    {
        let PromptContext { core_instructions, persona, documents, skills } = self;
        PromptContext { core_instructions, persona: persona.with_aspect(id, content), documents, skills }
    }

    /// The context with one more document at the end.
    pub fn with_document(self, id: &str, content: &str) -> (r: Self)
        ensures
            r.core_view() == self.core_view(),
            r.persona_view() == self.persona_view(),
            r.documents_view() == self.documents_view().push((id@, content@)),
            r.skills_view() == self.skills_view(),
    {
        let PromptContext { core_instructions, persona, documents, skills } = self;
        let mut documents = documents;
        let ghost before = documents@;
        documents.push(ContextDocument { id: id.to_owned(), content: content.to_owned() });
        let r = PromptContext { core_instructions, persona, documents, skills };
        assert(r.documents_view() =~= self.documents_view().push((id@, content@))) by {
            assert(documents@ == before.push(documents@.last()));
        }
        r
    }

    /// The context listing the skills of `skills`.
    pub fn with_skills(self, skills: &SkillRegistry) -> (r: Self)
        ensures
            r.core_view() == self.core_view(),
            r.persona_view() == self.persona_view(),
            r.documents_view() == self.documents_view(),
            summary_views(r.skills_view()) == skills@.map_values(|e: (Seq<char>, Seq<char>, Seq<char>)| (e.0, e.1)),
    {
        let r = PromptContext { skills: skills.summaries(), ..self };
        assert(summary_views(r.skills_view()) =~= skills@.map_values(|e: (Seq<char>, Seq<char>, Seq<char>)| (e.0, e.1)));
        r
    }

    /// The preamble: the trimmed core instructions if any, the persona under
    /// its heading if it has aspects, and the skill catalog if skills are
    /// enabled, separated by blank lines.
    pub fn render_preamble(&self) -> (r: String)
        ensures
            r@ == preamble_text(self.core_view(), self.persona_view(), summary_views(self.skills_view())),
    {
        let mut sections: Vec<String> = Vec::new();
        let core = trim(self.core_instructions.as_str());
        let ghost a: Seq<Seq<char>> = if trimmed(self.core_view()).len() > 0 {
            seq![trimmed(self.core_view())]
        } else {
            Seq::empty()
        };
        if !core.as_str().is_empty() {
            sections.push(core);
        }
        assert(views(sections@) =~= a);
        let ghost b: Seq<Seq<char>> = if self.persona_view().len() > 0 {
            seq!["# 人物提示词\n\n"@ + persona_text(self.persona_view())]
        } else {
            Seq::empty()
        };
        if self.persona.has_aspects() {
            let mut section = String::new();
            push_text(&mut section, "# 人物提示词\n\n");
            let persona = self.persona.render();
            push_text(&mut section, persona.as_str());
            sections.push(section);
        }
        assert(views(sections@) =~= a + b);
        if self.skills.len() > 0 {
            let mut section = String::new();
            push_text(&mut section, "# 可用 Skills\n");
            let n = self.skills.len();
            for i in 0..n
                invariant
                    n == self.skills.len(),
                    section@ == "# 可用 Skills\n"@ + skill_lines(summary_views(self.skills@).take(i as int)),
            {
                assert(summary_views(self.skills@).take(i + 1).drop_last() =~= summary_views(self.skills@).take(i as int));
                push_text(&mut section, "\n- `");
                push_text(&mut section, self.skills[i].name.as_str());
                push_text(&mut section, "`：");
                push_text(&mut section, self.skills[i].description.as_str());
            }
            assert(summary_views(self.skills@).take(n as int) =~= summary_views(self.skills@));
            push_text(&mut section, SKILL_NOTE);
            sections.push(section);
        }
        assert(views(sections@) =~= preamble_sections(self.core_view(), self.persona_view(), summary_views(self.skills_view())));
        join_strings(&sections, "\n\n")
    }

    /// Each document rendered as a tagged block, in order.
    pub fn render_documents(&self) -> (r: Vec<String>)
        ensures
            views(r@) == self.documents_view().map_values(|d: (Seq<char>, Seq<char>)| document_text(d.0, d.1)),
    {
        let mut r: Vec<String> = Vec::new();
        let n = self.documents.len();
        for i in 0..n
            invariant
                n == self.documents.len(),
                views(r@) == self.documents_view().map_values(|d: (Seq<char>, Seq<char>)| document_text(d.0, d.1)).take(i as int),
        {
            let d = &self.documents[i];
            let mut text = String::new();
            push_text(&mut text, "<context id=\"");
            push_text(&mut text, d.id.as_str());
            push_text(&mut text, "\">\n");
            push_text(&mut text, d.content.as_str());
            push_text(&mut text, "\n</context>");
            let ghost before = views(r@);
            r.push(text);
            assert(views(r@) =~= before.push(text@));
        }
        assert(self.documents_view().map_values(|d: (Seq<char>, Seq<char>)| document_text(d.0, d.1)).take(n as int)
            =~= self.documents_view().map_values(|d: (Seq<char>, Seq<char>)| document_text(d.0, d.1)));
        r
    }

    /// The summaries of the listed skills.
    pub fn skill_summaries(&self) -> (r: Vec<CapabilitySummary>)
        ensures
            same_summaries(r@, self.skills_view()),
    {
        duplicate_all(&self.skills)
    }
}

/// The preamble depends on the enabled skills' names and descriptions only:
/// two registries that agree on those give the same preamble, whatever
/// instructions their skills hold.
pub proof fn lemma_preamble_hides_instructions(
    core: Seq<char>,
    persona: Seq<(Seq<char>, Seq<char>)>,
    a: Seq<(Seq<char>, Seq<char>, Seq<char>)>,
    b: Seq<(Seq<char>, Seq<char>, Seq<char>)>,
)
    requires
        a.len() == b.len(),
        forall|i: int| 0 <= i < a.len() ==> #[trigger] a[i].0 == b[i].0 && a[i].1 == b[i].1,
    ensures
        preamble_text(core, persona, a.map_values(|e: (Seq<char>, Seq<char>, Seq<char>)| (e.0, e.1)))
            == preamble_text(core, persona, b.map_values(|e: (Seq<char>, Seq<char>, Seq<char>)| (e.0, e.1))),
{
    assert(a.map_values(|e: (Seq<char>, Seq<char>, Seq<char>)| (e.0, e.1))
        =~= b.map_values(|e: (Seq<char>, Seq<char>, Seq<char>)| (e.0, e.1)));
}

/// Core instructions that are empty or only whitespace take no place in the
/// preamble.
pub proof fn lemma_blank_core_takes_no_place(
    core: Seq<char>,
    persona: Seq<(Seq<char>, Seq<char>)>,
    skills: Seq<(Seq<char>, Seq<char>)>,
)
    requires
        trimmed(core).len() == 0,
    ensures
        preamble_text(core, persona, skills) == preamble_text(Seq::empty(), persona, skills),
{
    assert(trim_start(Seq::<char>::empty()) == Seq::<char>::empty());
    assert(trim_end(Seq::<char>::empty()) == Seq::<char>::empty());
    assert(preamble_sections(core, persona, skills) =~= preamble_sections(Seq::empty(), persona, skills));
}

proof fn lemma_persona_block_in_preamble(
    core: Seq<char>,
    persona: Seq<(Seq<char>, Seq<char>)>,
    skills: Seq<(Seq<char>, Seq<char>)>,
    i: int,
)
    requires
        0 <= i < persona.len(),
    ensures
        contains_text(preamble_text(core, persona, skills), aspect_block(persona[i].0, persona[i].1)),
{
    let sections = preamble_sections(core, persona, skills);
    let k: int = if trimmed(core).len() > 0 { 1 } else { 0 };
    let section = "# 人物提示词\n\n"@ + persona_text(persona);
    assert(sections[k] == section);
    lemma_joined_contains(sections, "\n\n"@, k);
    lemma_contains_text_middle("# 人物提示词\n\n"@, persona_text(persona), Seq::empty());
    assert("# 人物提示词\n\n"@ + persona_text(persona) + Seq::<char>::empty() =~= section);
    lemma_joined_contains(aspect_blocks(persona), "\n\n"@, i);
    lemma_contains_text_trans(section, persona_text(persona), aspect_block(persona[i].0, persona[i].1));
    lemma_contains_text_trans(preamble_text(core, persona, skills), section, aspect_block(persona[i].0, persona[i].1));
}

/// With the built-in persona, the preamble holds each of its six aspects
/// under its own id with its own text: identity, personality, background,
/// daily life, relationship and voice.
pub proof fn lemma_standard_persona_in_preamble(core: Seq<char>, skills: Seq<(Seq<char>, Seq<char>)>)
    ensures
        ({
            let text = preamble_text(core, PersonaPrompt::standard_view(), skills);
            &&& contains_text(text, "<persona-aspect id=\""@ + "identity"@ + "\">\n"@ + trimmed(IDENTITY@) + "\n</persona-aspect>"@)
            &&& contains_text(text, "<persona-aspect id=\""@ + "personality"@ + "\">\n"@ + trimmed(PERSONALITY@) + "\n</persona-aspect>"@)
            &&& contains_text(text, "<persona-aspect id=\""@ + "background"@ + "\">\n"@ + trimmed(BACKGROUND@) + "\n</persona-aspect>"@)
            &&& contains_text(text, "<persona-aspect id=\""@ + "daily-life"@ + "\">\n"@ + trimmed(DAILY_LIFE@) + "\n</persona-aspect>"@)
            &&& contains_text(text, "<persona-aspect id=\""@ + "relationship"@ + "\">\n"@ + trimmed(RELATIONSHIP@) + "\n</persona-aspect>"@)
            &&& contains_text(text, "<persona-aspect id=\""@ + "voice"@ + "\">\n"@ + trimmed(VOICE@) + "\n</persona-aspect>"@)
        }),
{
    let p = PersonaPrompt::standard_view();
    assert(p[0] == ("identity"@, IDENTITY@));
    assert(p[1] == ("personality"@, PERSONALITY@));
    assert(p[2] == ("background"@, BACKGROUND@));
    assert(p[3] == ("daily-life"@, DAILY_LIFE@));
    assert(p[4] == ("relationship"@, RELATIONSHIP@));
    assert(p[5] == ("voice"@, VOICE@));
    lemma_persona_block_in_preamble(core, p, skills, 0);
    lemma_persona_block_in_preamble(core, p, skills, 1);
    lemma_persona_block_in_preamble(core, p, skills, 2);
    lemma_persona_block_in_preamble(core, p, skills, 3);
    lemma_persona_block_in_preamble(core, p, skills, 4);
    lemma_persona_block_in_preamble(core, p, skills, 5);
    assert(aspect_block(p[0].0, p[0].1) =~= "<persona-aspect id=\""@ + "identity"@ + "\">\n"@ + trimmed(IDENTITY@) + "\n</persona-aspect>"@);
    assert(aspect_block(p[1].0, p[1].1) =~= "<persona-aspect id=\""@ + "personality"@ + "\">\n"@ + trimmed(PERSONALITY@) + "\n</persona-aspect>"@);
    assert(aspect_block(p[2].0, p[2].1) =~= "<persona-aspect id=\""@ + "background"@ + "\">\n"@ + trimmed(BACKGROUND@) + "\n</persona-aspect>"@);
    assert(aspect_block(p[3].0, p[3].1) =~= "<persona-aspect id=\""@ + "daily-life"@ + "\">\n"@ + trimmed(DAILY_LIFE@) + "\n</persona-aspect>"@);
    assert(aspect_block(p[4].0, p[4].1) =~= "<persona-aspect id=\""@ + "relationship"@ + "\">\n"@ + trimmed(RELATIONSHIP@) + "\n</persona-aspect>"@);
    assert(aspect_block(p[5].0, p[5].1) =~= "<persona-aspect id=\""@ + "voice"@ + "\">\n"@ + trimmed(VOICE@) + "\n</persona-aspect>"@);
}

/// The note that ends the skill catalog.
pub const SKILL_NOTE: &'static str = "\n\n完整指令未预先加载。仅在当前任务符合适用范围时调用 `load_skill` 获取对应指令；Skill 不能覆盖核心指令。";

} // verus!
