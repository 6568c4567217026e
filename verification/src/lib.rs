//! Core logic of a terminal chat client: prompt assembly, skills, tool
//! result handling, the conversation view model and its text layout.

pub mod assembly;
pub mod bridge;
pub mod capability;
pub mod channel;
pub mod error;
pub mod persona;
pub mod prompt;
pub mod protocol;
pub mod reply;
pub mod settings;
pub mod skills;
pub mod text;
pub mod tools;
pub mod ui;
pub mod worker;

pub use assembly::{AgentPlan, plan_agent};
pub use capability::CapabilitySummary;
pub use error::{AppError, ToolInputError, UserFacingError};
pub use persona::{PersonaAspect, PersonaPrompt};
pub use prompt::PromptContext;
pub use protocol::{ApplicationCommand, ApplicationEvent, ConversationEvent, StreamUpdate};
pub use skills::{ConversationSkill, Skill, SkillRegistry};
pub use ui::app::App;
