//! Who may read a conversation.

use vstd::prelude::*;

verus! {

/// Whether a user may read the conversations found under an identifier.
#[derive(Debug, Clone, Copy, PartialEq, Eq, Structural)]
pub enum ConversationAccess {
    /// Nothing was found.
    NotFound,
    /// Something that was found belongs to someone else.
    Unauthorized,
    /// All that was found belongs to the user.
    Granted,
}

/// The access of `user_id` to conversations owned by `owner_ids`.
pub open spec fn access_of(owner_ids: Seq<i32>, user_id: i32) -> ConversationAccess {
    if owner_ids.len() == 0 {
        ConversationAccess::NotFound
    } else if exists|i: int| 0 <= i < owner_ids.len() && owner_ids[i] != user_id {
        ConversationAccess::Unauthorized
    } else {
        ConversationAccess::Granted
    }
}

/// Decides whether `user_id` may read the conversations owned by
/// `owner_ids`.
pub fn conversation_access(owner_ids: &Vec<i32>, user_id: i32) -> (access: ConversationAccess)
    ensures
        access == access_of(owner_ids@, user_id),
{
    if owner_ids.len() == 0 {
        return ConversationAccess::NotFound;
    }
    let mut i: usize = 0;
    while i < owner_ids.len()
        invariant
            i <= owner_ids.len(),
            forall|j: int| 0 <= j < i ==> owner_ids@[j] == user_id,
        decreases owner_ids.len() - i,
    {
        if owner_ids[i] != user_id {
            return ConversationAccess::Unauthorized;
        }
        i += 1;
    }
    ConversationAccess::Granted
}

} // verus!
