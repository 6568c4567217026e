//! Messages shown in the conversation view.

use vstd::prelude::*;

verus! {

/// Who a message comes from.
#[derive(Clone, Copy, Debug, PartialEq, Eq, Structural)]
pub enum Role {
    System,
    User,
    Assistant,
}

/// A message in the conversation view.
#[derive(Clone, Debug, PartialEq, Eq)]
pub struct Message {
    pub role: Role,
    pub content: String,
}

impl Message {
    /// A message from `role` with the given text.
    pub fn new(role: Role, content: &str) -> (r: Self)
        ensures
            r.role == role,
            r.content@ == content@,
    {
        Message { role, content: content.to_owned() }
    }

    /// A message from `role` holding `content`.
    pub fn from_string(role: Role, content: String) -> (r: Self)
        ensures
            r.role == role,
            r.content@ == content@,
    {
        Message { role, content }
    }
}

} // verus!
