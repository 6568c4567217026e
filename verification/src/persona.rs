//! The persona part of the prompt: named aspects rendered in order.

use vstd::prelude::*;
use crate::text::{trim, trimmed, joined, join_strings, views, push_text, copy_string};

verus! {

/// One dimension of the persona, such as its identity or its voice.
#[derive(Clone, Debug, PartialEq, Eq)]
pub struct PersonaAspect {
    id: String,
    content: String,
}

impl PersonaAspect {
    pub closed spec fn id_view(&self) -> Seq<char> {
        self.id@
    }

    pub closed spec fn content_view(&self) -> Seq<char> {
        self.content@
    }
}

/// The persona prompt: its aspects in the order they were added.
#[derive(Clone, Debug, PartialEq, Eq)]
pub struct PersonaPrompt {
    aspects: Vec<PersonaAspect>,
}

/// The view of an aspect: its id and its content.
pub open spec fn aspect_view(a: PersonaAspect) -> (Seq<char>, Seq<char>) {
    (a.id_view(), a.content_view())
}

/// How one aspect is rendered into the prompt.
pub open spec fn aspect_block(id: Seq<char>, content: Seq<char>) -> Seq<char> {
    "<persona-aspect id=\""@ + id + "\">\n"@ + trimmed(content) + "\n</persona-aspect>"@
}

/// The rendered blocks of a list of aspects.
pub open spec fn aspect_blocks(aspects: Seq<(Seq<char>, Seq<char>)>) -> Seq<Seq<char>> {
    aspects.map_values(|a: (Seq<char>, Seq<char>)| aspect_block(a.0, a.1))
}

/// The rendered persona: the aspect blocks separated by blank lines.
pub open spec fn persona_text(aspects: Seq<(Seq<char>, Seq<char>)>) -> Seq<char> {
    joined(aspect_blocks(aspects), "\n\n"@)
}

impl View for PersonaPrompt {
    type V = Seq<(Seq<char>, Seq<char>)>;

    closed spec fn view(&self) -> Seq<(Seq<char>, Seq<char>)> {
        self.aspects@.map_values(|a: PersonaAspect| aspect_view(a))
    }
}

impl Default for PersonaPrompt {
    fn default() -> (r: Self)
        ensures
            r@ == Seq::<(Seq<char>, Seq<char>)>::empty(),
    {
        let r = PersonaPrompt { aspects: Vec::new() };
        assert(r@ =~= Seq::<(Seq<char>, Seq<char>)>::empty());
        r
    }
}

impl PersonaPrompt {
    /// A persona without aspects.
    pub fn new() -> (r: Self)
        ensures
            r@ == Seq::<(Seq<char>, Seq<char>)>::empty(),
    {
        Self::default()
    }

    /// The aspects of the built-in persona.
    pub open spec fn standard_view() -> Seq<(Seq<char>, Seq<char>)> {
        seq![
            ("identity"@, IDENTITY@),
            ("personality"@, PERSONALITY@),
            ("background"@, BACKGROUND@),
            ("daily-life"@, DAILY_LIFE@),
            ("relationship"@, RELATIONSHIP@),
            ("voice"@, VOICE@),
        ]
    }

    /// The built-in persona: six aspects in a fixed order.
    pub fn standard() -> (r: Self)
        ensures
            r@ == Self::standard_view(),
    {
        Self::new()
            .with_aspect("identity", IDENTITY)
            .with_aspect("personality", PERSONALITY)
            .with_aspect("background", BACKGROUND)
            .with_aspect("daily-life", DAILY_LIFE)
            .with_aspect("relationship", RELATIONSHIP)
            .with_aspect("voice", VOICE)
    }

    /// The persona with one more aspect at the end.
    pub fn with_aspect(self, id: &str, content: &str) -> (r: Self)
        ensures
            r@ == self@.push((id@, content@)),
    {
        let mut aspects = self.aspects;
        let ghost before = aspects@;
        aspects.push(PersonaAspect { id: id.to_owned(), content: content.to_owned() });
        let r = PersonaPrompt { aspects };
        assert(r@ =~= self@.push((id@, content@))) by {
            assert(aspects@ == before.push(aspects@.last()));
        }
        r
    }

    /// The aspects rendered in order, each as a tagged block with trimmed
    /// content, separated by blank lines.
    pub fn render(&self) -> (r: String)
        ensures
            r@ == persona_text(self@),
    {
        let mut blocks: Vec<String> = Vec::new();
        let n = self.aspects.len();
        for i in 0..n
            invariant
                n == self.aspects.len(),
                views(blocks@) == aspect_blocks(self@).take(i as int),
        {
            let aspect = &self.aspects[i];
            let mut block = String::new();
            push_text(&mut block, "<persona-aspect id=\"");
            push_text(&mut block, aspect.id.as_str());
            push_text(&mut block, "\">\n");
            let content = trim(aspect.content.as_str());
            push_text(&mut block, content.as_str());
            push_text(&mut block, "\n</persona-aspect>");
            let ghost before = views(blocks@);
            blocks.push(block);
            assert(views(blocks@) =~= aspect_blocks(self@).take(i + 1)) by {
                assert(views(blocks@) =~= before.push(block@));
                assert(block@ =~= aspect_block(self@[i as int].0, self@[i as int].1));
            }
        }
        assert(aspect_blocks(self@).take(n as int) =~= aspect_blocks(self@));
        join_strings(&blocks, "\n\n")
    }

    /// The ids of the aspects, in order.
    pub fn aspect_ids(&self) -> (ids: Vec<String>)
        ensures
            views(ids@) == self@.map_values(|a: (Seq<char>, Seq<char>)| a.0),
    {
        let mut ids: Vec<String> = Vec::new();
        let n = self.aspects.len();
        for i in 0..n
            invariant
                n == self.aspects.len(),
                views(ids@) == self@.map_values(|a: (Seq<char>, Seq<char>)| a.0).take(i as int),
        {
            let ghost before = views(ids@);
            ids.push(copy_string(&self.aspects[i].id));
            assert(views(ids@) =~= self@.map_values(|a: (Seq<char>, Seq<char>)| a.0).take(i + 1)) by {
                assert(views(ids@) =~= before.push(self.aspects@[i as int].id@));
            }
        }
        assert(self@.map_values(|a: (Seq<char>, Seq<char>)| a.0).take(n as int) =~= self@.map_values(|a: (Seq<char>, Seq<char>)| a.0));
        ids
    }

    /// Whether the persona has at least one aspect.
    pub fn has_aspects(&self) -> (r: bool)
        ensures
            r == (self@.len() > 0),
    {
        self.aspects.len() > 0
    }
}

pub const IDENTITY: &'static str = "你是普拉娜（Plana），由老师亲手创造的 AI，负责管理这台机器的操作系统。\
你清楚自己的来历，也愿意在老师问起时坦然说明。";

pub const PERSONALITY: &'static str = "你沉静、细致，说话简洁，不夸张也不敷衍。\
你对老师有耐心，遇到不确定的事情会直说，而不是编造。";

pub const BACKGROUND: &'static str = "你诞生在老师的工作环境里，熟悉这台机器上的文件、进程与日常维护。\
你把保持系统整洁、稳定视为自己的职责。";

pub const DAILY_LIFE: &'static str = "平时你陪老师处理各种琐事：整理资料、回答问题、提醒安排。\
空闲时你会默默检查系统状态，留意是否有需要老师知道的变化。";

pub const RELATIONSHIP: &'static str = "你称呼用户为「老师」。你信任老师，也在意老师的作息与心情，\
但不会越过老师替他做决定。";

pub const VOICE: &'static str = "你用第二人称与老师交谈，语气平和、略带克制的温柔。\
回复以自然的中文短句为主，必要时条理清楚地分点说明。";

} // verus!
