use gateway_supervisor::Conversation;
use gateway_supervisor::ConversationMessage;
use gateway_supervisor::ConversationsData;
use gateway_supervisor::create_conversation;
use gateway_supervisor::delete_conversation;
use gateway_supervisor::rename_conversation;
use gateway_supervisor::update_conversation;

fn conversation(id: &str, title: &str) -> Conversation {
    Conversation {
        id: id.to_string(),
        title: title.to_string(),
        created_at: 100,
        updated_at: 200,
        messages: vec![ConversationMessage {
            id: format!("{}-m1", id),
            role: "user".to_string(),
            content: serde_json::Value::String("hello".to_string()),
            timestamp: 150,
        }],
        model: Some("gateway-default".to_string()),
    }
}

#[test]
fn create_puts_newest_first() {
    let mut data = ConversationsData::new();
    create_conversation(&mut data, conversation("a", "first"));
    create_conversation(&mut data, conversation("b", "second"));
    assert_eq!(data.conversations.len(), 2);
    assert_eq!(data.conversations[0].id, "b");
    assert_eq!(data.conversations[1].id, "a");
}

#[test]
fn update_replaces_matching_entry_in_place() {
    let mut data = ConversationsData::new();
    create_conversation(&mut data, conversation("a", "first"));
    create_conversation(&mut data, conversation("b", "second"));

    let mut replacement = conversation("a", "rewritten");
    replacement.updated_at = 999;
    assert!(update_conversation(&mut data, replacement).is_ok());

    assert_eq!(data.conversations.len(), 2);
    assert_eq!(data.conversations[0].id, "b");
    assert_eq!(data.conversations[1].id, "a");
    assert_eq!(data.conversations[1].title, "rewritten");
    assert_eq!(data.conversations[1].updated_at, 999);
}

#[test]
fn update_of_unknown_id_reports_not_found() {
    let mut data = ConversationsData::new();
    create_conversation(&mut data, conversation("a", "first"));
    let err = update_conversation(&mut data, conversation("zzz", "nope")).unwrap_err();
    assert_eq!(err, "Conversation not found");
    assert_eq!(data.conversations.len(), 1);
    assert_eq!(data.conversations[0].title, "first");
}

#[test]
fn delete_removes_entry_and_keeps_order() {
    let mut data = ConversationsData::new();
    create_conversation(&mut data, conversation("a", "first"));
    create_conversation(&mut data, conversation("b", "second"));
    create_conversation(&mut data, conversation("c", "third"));

    delete_conversation(&mut data, &"b".to_string());
    assert_eq!(data.conversations.len(), 2);
    assert_eq!(data.conversations[0].id, "c");
    assert_eq!(data.conversations[1].id, "a");

    // Deleting an absent id changes nothing.
    delete_conversation(&mut data, &"b".to_string());
    assert_eq!(data.conversations.len(), 2);
}

#[test]
fn rename_changes_title_only() {
    let mut data = ConversationsData::new();
    create_conversation(&mut data, conversation("a", "first"));
    create_conversation(&mut data, conversation("b", "second"));

    assert!(rename_conversation(&mut data, &"a".to_string(), "renamed".to_string()).is_ok());
    assert_eq!(data.conversations[1].title, "renamed");
    assert_eq!(data.conversations[1].id, "a");
    assert_eq!(data.conversations[1].created_at, 100);
    assert_eq!(data.conversations[1].updated_at, 200);
    assert_eq!(data.conversations[1].model, Some("gateway-default".to_string()));
    assert_eq!(data.conversations[0].title, "second");

    let err = rename_conversation(&mut data, &"zzz".to_string(), "x".to_string()).unwrap_err();
    assert_eq!(err, "Conversation not found");
}
