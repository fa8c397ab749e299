use backend::api::auth::bearer_token;
use backend::api::conversations::{conversation_access, ConversationAccess};
use backend::api::users::or_null;

#[test]
fn token_follows_the_bearer_prefix() {
    assert_eq!(bearer_token("Bearer abc.def.ghi").as_deref(), Some("abc.def.ghi"));
    assert_eq!(bearer_token("Bearer ").as_deref(), Some(""));
    assert_eq!(bearer_token("Bearer  two").as_deref(), Some(" two"));
    assert_eq!(bearer_token("Bearer é✓").as_deref(), Some("é✓"));
}

#[test]
fn header_without_the_prefix_has_no_token() {
    assert_eq!(bearer_token(""), None);
    assert_eq!(bearer_token("Bearer"), None);
    assert_eq!(bearer_token("bearer abc"), None);
    assert_eq!(bearer_token("Basic abc"), None);
    assert_eq!(bearer_token(" Bearer abc"), None);
    assert_eq!(bearer_token("Bearerabc"), None);
}

#[test]
fn access_to_conversations() {
    assert_eq!(conversation_access(&vec![], 1), ConversationAccess::NotFound);
    assert_eq!(conversation_access(&vec![1], 1), ConversationAccess::Granted);
    assert_eq!(conversation_access(&vec![1, 1, 1], 1), ConversationAccess::Granted);
    assert_eq!(conversation_access(&vec![2], 1), ConversationAccess::Unauthorized);
    assert_eq!(conversation_access(&vec![1, 2], 1), ConversationAccess::Unauthorized);
    assert_eq!(conversation_access(&vec![1, 1, -1], 1), ConversationAccess::Unauthorized);
}

#[test]
fn missing_details_are_shown_as_null() {
    assert_eq!(or_null(Some("TCU".to_string())), "TCU");
    assert_eq!(or_null(Some(String::new())), "");
    assert_eq!(or_null(None), "null");
}
