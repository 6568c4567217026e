//! Skills: named instruction sets that the model loads on demand, and the
//! registry that holds the enabled ones.

use vstd::prelude::*;
use crate::capability::CapabilitySummary;
use crate::text::{text_eq, copy_string};

verus! {

/// A skill that can be offered to the model. Implementations name the
/// skill, say when it applies, and hold its full instructions.
pub trait Skill {
    /// The skill's name.
    spec fn spec_name(&self) -> Seq<char>;

    /// When the skill applies.
    spec fn spec_description(&self) -> Seq<char>;

    /// The skill's full instructions.
    spec fn spec_instructions(&self) -> Seq<char>;

    fn name(&self) -> (r: &str)
        ensures
            r@ == self.spec_name();

    fn description(&self) -> (r: &str)
        ensures
            r@ == self.spec_description();

    fn instructions(&self) -> (r: &str)
        ensures
            r@ == self.spec_instructions();
}

/// What the registry keeps of a skill.
#[derive(Clone, Debug, PartialEq, Eq)]
pub struct SkillEntry {
    pub name: String,
    pub description: String,
    pub instructions: String,
}

/// The view of an entry: name, description and instructions.
pub open spec fn entry_view(e: SkillEntry) -> (Seq<char>, Seq<char>, Seq<char>) {
    (e.name@, e.description@, e.instructions@)
}

/// The enabled skills, in the order they were added.
#[derive(Debug)]
pub struct SkillRegistry {
    entries: Vec<SkillEntry>,
}

impl View for SkillRegistry {
    type V = Seq<(Seq<char>, Seq<char>, Seq<char>)>;

    closed spec fn view(&self) -> Seq<(Seq<char>, Seq<char>, Seq<char>)> {
        self.entries@.map_values(|e: SkillEntry| entry_view(e))
    }
}

impl Default for SkillRegistry {
    fn default() -> (r: Self)
        ensures
            r@ == Seq::<(Seq<char>, Seq<char>, Seq<char>)>::empty(),
    {
        let r = SkillRegistry { entries: Vec::new() };
        assert(r@ =~= Seq::<(Seq<char>, Seq<char>, Seq<char>)>::empty());
        r
    }
}

/// The index of the first skill called `name`, if any.
pub open spec fn first_named(skills: Seq<(Seq<char>, Seq<char>, Seq<char>)>, name: Seq<char>) -> Option<int> {
    if exists|i: int| 0 <= i < skills.len() && skills[i].0 == name {
        Some(choose|i: int| 0 <= i < skills.len() && skills[i].0 == name
            && forall|j: int| 0 <= j < i ==> skills[j].0 != name)
    } else {
        None
    }
}

impl SkillRegistry {
    /// An empty registry.
    pub fn new() -> (r: Self)
        ensures
            r@ == Seq::<(Seq<char>, Seq<char>, Seq<char>)>::empty(),
    {
        Self::default()
    }

    /// The registry with `skill` added at the end: its name, description and
    /// instructions as the skill's own methods give them.
    pub fn with_skill<S: Skill>(self, skill: S) -> (r: Self)
        ensures
            r@ == self@.push((skill.spec_name(), skill.spec_description(), skill.spec_instructions())),
    {
        self.with_parts(skill.name(), skill.description(), skill.instructions())
    }

    /// The registry with a skill of the given name, description and
    /// instructions added at the end.
    pub fn with_parts(self, name: &str, description: &str, instructions: &str) -> (r: Self)
        ensures
            r@ == self@.push((name@, description@, instructions@)),
    {
        let mut entries = self.entries;
        let ghost before = entries@;
        entries.push(SkillEntry {
            name: name.to_owned(),
            description: description.to_owned(),
            instructions: instructions.to_owned(),
        });
        let r = SkillRegistry { entries };
        assert(r@ =~= self@.push((name@, description@, instructions@))) by {
            assert(entries@ == before.push(entries@.last()));
        }
        r
    }

    /// Whether no skill is enabled.
    pub fn is_empty(&self) -> (r: bool)
        ensures
            r == (self@.len() == 0),
    {
        self.entries.len() == 0
    }

    /// Name and description of each skill, in order.
    pub fn summaries(&self) -> (r: Vec<CapabilitySummary>)
        ensures
            r@.len() == self@.len(),
            forall|i: int| 0 <= i < r@.len() ==> r@[i].name@ == self@[i].0 && r@[i].description@ == self@[i].1,
    {
        let mut r: Vec<CapabilitySummary> = Vec::new();
        let n = self.entries.len();
        for i in 0..n
            invariant
                n == self.entries.len(),
                r@.len() == i,
                forall|j: int| 0 <= j < i ==> r@[j].name@ == self@[j].0 && r@[j].description@ == self@[j].1,
        {
            let e = &self.entries[i];
            r.push(CapabilitySummary { name: copy_string(&e.name), description: copy_string(&e.description) });
        }
        r
    }

    /// The first skill called `name`.
    pub fn get(&self, name: &str) -> (r: Option<&SkillEntry>)
        ensures
            match first_named(self@, name@) {
                Some(i) => r matches Some(e) && entry_view(*e) == self@[i],
                None => r is None,
            },
    {
        let n = self.entries.len();
        for i in 0..n
            invariant
                n == self.entries.len(),
                forall|j: int| 0 <= j < i ==> self@[j].0 != name@,
        {
            if text_eq(self.entries[i].name.as_str(), name) {
                proof {
                    let k = choose|k: int| 0 <= k < self@.len() && self@[k].0 == name@
                        && forall|j: int| 0 <= j < k ==> self@[j].0 != name@;
                    assert(self@[i as int].0 == name@);
                    if k < i {
                    } else if k > i {
                    }
                }
                return Some(&self.entries[i]);
            }
        }
        None
    }
}

/// The built-in skill for everyday conversation.
pub struct ConversationSkill;

impl Skill for ConversationSkill {
    open spec fn spec_name(&self) -> Seq<char> {
        "conversation"@
    }

    open spec fn spec_description(&self) -> Seq<char> {
        CONVERSATION_DESCRIPTION@
    }

    open spec fn spec_instructions(&self) -> Seq<char> {
        CONVERSATION_INSTRUCTIONS@
    }

    fn name(&self) -> (r: &str) {
        "conversation"
    }

    fn description(&self) -> (r: &str) {
        CONVERSATION_DESCRIPTION
    }

    fn instructions(&self) -> (r: &str) {
        CONVERSATION_INSTRUCTIONS
    }
}

/// What the built-in conversation skill is for.
pub const CONVERSATION_DESCRIPTION: &'static str = "负责清晰、友善且有上下文意识的日常对话";

/// The full instructions of the built-in conversation skill.
pub const CONVERSATION_INSTRUCTIONS: &'static str = "# Conversation Skill

在日常对话中：

- 先理解老师真正想表达的内容，必要时简短确认，不要臆测。
- 结合前文保持连贯，记住老师刚提到的事情，避免重复提问。
- 回答清晰、友善，先给结论，再按需要补充细节。
- 不确定的信息直接说明不确定，不编造事实。
";

} // verus!
