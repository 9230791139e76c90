use standout::views::{
    create_view, delete_view, detail_view, list_view, update_view, ActionSuggestion, ListViewResult, Message,
    MessageLevel, ValidationError,
};

#[test]
fn test_message_creation() {
    let msg = Message::warning("Something happened");
    assert_eq!(msg.level, MessageLevel::Warning);
    assert_eq!(msg.text, "Something happened");
}

#[test]
fn test_message_shortcuts() {
    assert_eq!(Message::info("test").level, MessageLevel::Info);
    assert_eq!(Message::success("test").level, MessageLevel::Success);
    assert_eq!(Message::warning("test").level, MessageLevel::Warning);
    assert_eq!(Message::error("test").level, MessageLevel::Error);
}

#[test]
fn test_style_names() {
    assert_eq!(MessageLevel::Info.style_name(), "standout-info");
    assert_eq!(MessageLevel::Success.style_name(), "standout-success");
    assert_eq!(MessageLevel::Warning.style_name(), "standout-warning");
    assert_eq!(MessageLevel::Error.style_name(), "standout-error");
}

#[test]
fn message_levels_read_as_their_lowercase_words() {
    assert_eq!(MessageLevel::Info.as_str(), "info");
    assert_eq!(MessageLevel::Success.as_str(), "success");
    assert_eq!(MessageLevel::Warning.as_str(), "warning");
    assert_eq!(MessageLevel::Error.as_str(), "error");
}

#[test]
fn test_create_view_builder_basic() {
    let result = create_view("item").build();
    assert_eq!(result.item, "item");
    assert!(!result.dry_run);
    assert!(result.validation_errors.is_empty());
    assert!(result.messages.is_empty());
    assert!(result.is_valid());
}

#[test]
fn test_create_view_builder_dry_run() {
    let result = create_view("item").dry_run().build();
    assert!(result.is_dry_run());
}

#[test]
fn test_create_view_builder_with_validation_errors() {
    let result = create_view("item")
        .validation_error("title", "Title is required")
        .validation_error("email", "Invalid email format")
        .build();
    assert!(result.has_validation_errors());
    assert!(!result.is_valid());
    assert_eq!(result.validation_errors.len(), 2);
    assert_eq!(result.validation_errors[0].field, "title");
    assert_eq!(result.validation_errors[1].field, "email");
}

#[test]
fn test_create_view_builder_with_multiple_validation_errors() {
    let errors = vec![ValidationError::new("a", "Error A"), ValidationError::new("b", "Error B")];
    let result = create_view("item").validation_errors(errors).build();
    assert_eq!(result.validation_errors.len(), 2);
}

#[test]
fn test_create_view_builder_with_messages() {
    let result = create_view("item").info("Info").success("Success").warning("Warning").error("Error").build();
    assert_eq!(result.messages.len(), 4);
    assert_eq!(result.messages[0].level, MessageLevel::Info);
    assert_eq!(result.messages[1].level, MessageLevel::Success);
    assert_eq!(result.messages[2].level, MessageLevel::Warning);
    assert_eq!(result.messages[3].level, MessageLevel::Error);
}

#[test]
fn test_validation_error() {
    let error = ValidationError::new("email", "Invalid format");
    assert_eq!(error.field, "email");
    assert_eq!(error.message, "Invalid format");
}

#[test]
fn validation_errors_keep_the_ones_added_before() {
    let result = create_view(1)
        .validation_error("a", "first")
        .validation_errors(vec![ValidationError::new("b", "second")])
        .build();
    assert_eq!(result.validation_errors.len(), 2);
    assert_eq!(result.validation_errors[0].message, "first");
    assert_eq!(result.validation_errors[1].field, "b");
}

#[test]
fn test_delete_view_builder_basic() {
    let result = delete_view("item").build();
    assert_eq!(result.item, "item");
    assert!(!result.confirmed);
    assert!(!result.soft_deleted);
    assert!(result.undo_command.is_none());
    assert!(result.messages.is_empty());
}

#[test]
fn test_delete_view_builder_confirmed() {
    let result = delete_view("item").confirmed().build();
    assert!(result.is_confirmed());
}

#[test]
fn test_delete_view_builder_with_confirmed() {
    let result = delete_view("item").with_confirmed(true).build();
    assert!(result.is_confirmed());

    let result = delete_view("item").with_confirmed(false).build();
    assert!(!result.is_confirmed());
}

#[test]
fn test_delete_view_builder_soft_deleted() {
    let result = delete_view("item").soft_deleted().build();
    assert!(result.is_soft_deleted());
}

#[test]
fn test_delete_view_builder_undo_command() {
    let result = delete_view("item").undo_command("task restore t1").build();
    assert!(result.has_undo());
    assert_eq!(result.undo_command, Some("task restore t1".to_string()));
}

#[test]
fn test_delete_view_builder_with_messages() {
    let result = delete_view("item").info("Info").success("Success").warning("Warning").error("Error").build();
    assert_eq!(result.messages.len(), 4);
    assert_eq!(result.messages[0].level, MessageLevel::Info);
    assert_eq!(result.messages[1].level, MessageLevel::Success);
    assert_eq!(result.messages[2].level, MessageLevel::Warning);
    assert_eq!(result.messages[3].level, MessageLevel::Error);
}

#[test]
fn test_delete_view_full_example() {
    let result = delete_view("task")
        .confirmed()
        .soft_deleted()
        .undo_command("restore task-1")
        .success("Task deleted")
        .build();
    assert!(result.is_confirmed());
    assert!(result.is_soft_deleted());
    assert!(result.has_undo());
    assert_eq!(result.messages.len(), 1);
}

#[test]
fn test_list_view_builder_basic() {
    let result = list_view(vec![1, 2, 3]).build();
    assert_eq!(result.items, vec![1, 2, 3]);
    assert!(result.intro.is_none());
    assert!(result.ending.is_none());
    assert!(result.messages.is_empty());
}

#[test]
fn test_list_view_builder_with_intro_ending() {
    let result = list_view(vec!["a", "b"]).intro("Header").ending("Footer").build();
    assert_eq!(result.intro, Some("Header".to_string()));
    assert_eq!(result.ending, Some("Footer".to_string()));
}

#[test]
fn test_list_view_builder_with_messages() {
    let result = list_view(Vec::<i32>::new())
        .info("Info message")
        .warning("Warning message")
        .error("Error message")
        .build();
    assert_eq!(result.messages.len(), 3);
    assert_eq!(result.messages[0].level, MessageLevel::Info);
    assert_eq!(result.messages[1].level, MessageLevel::Warning);
    assert_eq!(result.messages[2].level, MessageLevel::Error);
}

#[test]
fn test_list_view_builder_with_filter_info() {
    let result = list_view(vec![1, 2]).total_count(10).filter_summary("status=active").build();
    assert_eq!(result.total_count, Some(10));
    assert_eq!(result.filter_summary, Some("status=active".to_string()));
}

#[test]
fn test_list_view_result_len_and_empty() {
    let empty: ListViewResult<i32> = list_view(vec![]).build();
    assert!(empty.is_empty());
    assert_eq!(empty.len(), 0);

    let non_empty = list_view(vec![1, 2, 3]).build();
    assert!(!non_empty.is_empty());
    assert_eq!(non_empty.len(), 3);
}

#[test]
fn test_list_view_default() {
    let result: ListViewResult<String> = ListViewResult::default();
    assert!(result.is_empty());
}

#[test]
fn a_list_carries_its_tabular_spec_unread() {
    let spec = serde_json::Value::from(vec!["name", "status"]);
    let result = list_view(vec![1]).tabular_spec(spec.clone()).build();
    assert_eq!(result.tabular_spec, Some(spec));
}

#[test]
fn test_update_view_builder_basic() {
    let result = update_view("after").build();
    assert_eq!(result.after, "after");
    assert!(result.before.is_none());
    assert!(result.changed_fields.is_empty());
    assert!(!result.dry_run);
    assert!(result.validation_errors.is_empty());
    assert!(result.messages.is_empty());
    assert!(result.is_valid());
    assert!(!result.has_changes());
}

#[test]
fn test_update_view_builder_with_before() {
    let result = update_view("after").before("before").build();
    assert!(result.has_before());
    assert_eq!(result.before, Some("before"));
}

#[test]
fn test_update_view_builder_with_changed_fields() {
    let result = update_view("after").changed_field("title").changed_field("status").build();
    assert!(result.has_changes());
    assert_eq!(result.changed_fields, vec!["title", "status"]);
}

#[test]
fn test_update_view_builder_with_multiple_changed_fields() {
    let result = update_view("after").changed_fields(["a", "b", "c"]).build();
    assert_eq!(result.changed_fields, vec!["a", "b", "c"]);
}

#[test]
fn test_update_view_builder_dry_run() {
    let result = update_view("after").dry_run().build();
    assert!(result.is_dry_run());
}

#[test]
fn test_update_view_builder_with_validation_errors() {
    let result = update_view("after")
        .validation_error("title", "Title is required")
        .validation_error("status", "Invalid status")
        .build();
    assert!(result.has_validation_errors());
    assert!(!result.is_valid());
    assert_eq!(result.validation_errors.len(), 2);
}

#[test]
fn test_update_view_builder_with_messages() {
    let result = update_view("after").info("Info").success("Success").warning("Warning").error("Error").build();
    assert_eq!(result.messages.len(), 4);
    assert_eq!(result.messages[0].level, MessageLevel::Info);
    assert_eq!(result.messages[1].level, MessageLevel::Success);
    assert_eq!(result.messages[2].level, MessageLevel::Warning);
    assert_eq!(result.messages[3].level, MessageLevel::Error);
}

#[test]
fn test_detail_view_builder_basic() {
    let result = detail_view("test item").build();
    assert_eq!(result.item, "test item");
    assert!(result.title.is_none());
    assert!(result.subtitle.is_none());
    assert!(result.related.is_empty());
    assert!(result.actions.is_empty());
    assert!(result.messages.is_empty());
}

#[test]
fn test_detail_view_builder_with_title_subtitle() {
    let result = detail_view("item").title("Details").subtitle("ID: 123").build();
    assert_eq!(result.title, Some("Details".to_string()));
    assert_eq!(result.subtitle, Some("ID: 123".to_string()));
}

fn related_names<T>(result: &standout::views::DetailViewResult<T>) -> Vec<&str> {
    result.related.iter().map(|(name, _)| name.as_str()).collect()
}

#[test]
fn test_detail_view_builder_with_related() {
    let mut author = serde_json::Map::new();
    author.insert("name".to_string(), serde_json::Value::from("Alice"));
    let result = detail_view("item")
        .related("author", serde_json::Value::Object(author))
        .related("tags", serde_json::Value::from(vec!["rust", "cli"]))
        .build();
    assert!(result.has_related());
    assert_eq!(result.related.len(), 2);
    assert!(related_names(&result).contains(&"author"));
    assert!(related_names(&result).contains(&"tags"));
}

#[test]
fn a_related_name_given_twice_keeps_the_later_value() {
    let result = detail_view("item")
        .related("owner", serde_json::Value::from("Alice"))
        .related("owner", serde_json::Value::from("Bob"))
        .build();
    assert_eq!(result.related.len(), 1);
    assert_eq!(result.related[0].1, serde_json::Value::from("Bob"));
}

#[test]
fn test_detail_view_builder_with_actions() {
    let result = detail_view("item").action("Edit", "item edit 1").action("Delete", "item delete 1").build();
    assert!(result.has_actions());
    assert_eq!(result.actions.len(), 2);
    assert_eq!(result.actions[0].label, "Edit");
    assert_eq!(result.actions[0].command, "item edit 1");
}

#[test]
fn test_detail_view_builder_with_messages() {
    let result = detail_view("item")
        .info("Info message")
        .success("Success message")
        .warning("Warning message")
        .error("Error message")
        .build();
    assert_eq!(result.messages.len(), 4);
    assert_eq!(result.messages[0].level, MessageLevel::Info);
    assert_eq!(result.messages[1].level, MessageLevel::Success);
    assert_eq!(result.messages[2].level, MessageLevel::Warning);
    assert_eq!(result.messages[3].level, MessageLevel::Error);
}

#[test]
fn test_action_suggestion() {
    let action = ActionSuggestion::new("Edit", "item edit 1");
    assert_eq!(action.label, "Edit");
    assert_eq!(action.command, "item edit 1");
}
