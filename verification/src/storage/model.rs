//! Plain records of the conversation store.

use vstd::prelude::*;
use vstd::string::StringExecFns;

verus! {

/// Who wrote a message.
#[derive(Debug, Clone, Copy, PartialEq, Eq, Structural)]
pub enum DBMessageRole {
    User,
    Assistant,
}

impl DBMessageRole {
    /// The lower-case name of the role.
    pub open spec fn name(self) -> Seq<char> {
        match self {
            DBMessageRole::User => "user"@,
            DBMessageRole::Assistant => "assistant"@,
        }
    }

    /// Renders the role as its lower-case name.
    pub fn to_string(&self) -> (s: String)
        ensures
            s@ == self.name(),
    {
        match self {
            DBMessageRole::User => String::from_str("user"),
            DBMessageRole::Assistant => String::from_str("assistant"),
        }
    }
}

/// The state of a conversation.
#[derive(Debug, Clone, Copy, PartialEq, Eq, Structural)]
pub enum DBConversationStatus {
    Active,
    Archived,
    Starred,
    System,
}

/// Paging of a listing; both parts are optional.
#[derive(Debug, Clone, Copy, PartialEq, Eq, Structural)]
pub struct DBFilterOptions {
    pub page: Option<usize>,
    pub limit: Option<usize>,
}

impl Default for DBFilterOptions {
    fn default() -> (r: DBFilterOptions)
        ensures
            r.page is None,
            r.limit is None,
    {
        DBFilterOptions { page: None, limit: None }
    }
}

} // verus!
