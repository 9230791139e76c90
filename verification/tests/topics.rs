use standout::io::{IoErrorKind, IoFailure};
use standout::topics::{DirectoryEntry, DirectoryListing, Topic, TopicRegistry, TopicType};

#[test]
fn test_slug_generation() {
    assert_eq!(Topic::generate_slug("Hello World"), "hello-world");
    assert_eq!(Topic::generate_slug("Testing  123"), "testing-123");
    assert_eq!(Topic::generate_slug("Olá Mundo"), "ola-mundo");
    assert_eq!(Topic::generate_slug("Café"), "cafe");
}

#[test]
fn a_slug_keeps_only_letters_digits_and_single_dashes() {
    assert_eq!(Topic::generate_slug("C++ & Rust: a -- guide!"), "c-rust-a-guide");
    assert_eq!(Topic::generate_slug(""), "");
}

#[test]
fn test_topic_registration() {
    let mut registry = TopicRegistry::new();
    let topic = Topic::new("My Topic", "Content", TopicType::Text, None);
    registry.add_topic(topic);

    assert!(registry.get_topic("my-topic").is_some());
}

#[test]
fn test_add_from_nonexistent_directory() {
    let mut registry = TopicRegistry::new();
    let result = registry.add_from_directory("/nonexistent/path/that/does/not/exist", DirectoryListing::Missing);
    assert!(result.is_err());
    assert_eq!(result.unwrap_err().kind(), IoErrorKind::NotFound);
}

#[test]
fn test_add_from_directory_if_exists_nonexistent() {
    let mut registry = TopicRegistry::new();
    let result = registry.add_from_directory_if_exists(DirectoryListing::Missing);
    assert!(result.is_ok());
    assert_eq!(registry.list_topics().len(), 0);
}

fn file(stem: &str, topic_type: TopicType, text: &str) -> DirectoryEntry {
    DirectoryEntry::TopicFile { stem: Some(stem.to_string()), topic_type, content: Ok(text.to_string()) }
}

#[test]
fn test_load_from_dir() {
    let entries = vec![
        file("intro", TopicType::Text, "Introduction\nThis is the content.\n"),
        file("guide", TopicType::Markdown, "Guide Title\n# Header\nBody\n"),
        file("short", TopicType::Text, "One line only\n"),
        file("empty_body", TopicType::Text, "Just Title\n\n"),
        DirectoryEntry::Other,
    ];
    let mut registry = TopicRegistry::new();
    registry.add_from_directory("topics", DirectoryListing::Entries(entries)).unwrap();

    assert!(registry.get_topic("intro").is_some());
    assert_eq!(registry.get_topic("intro").unwrap().title, "Introduction");
    assert_eq!(registry.get_topic("intro").unwrap().content, "This is the content.");

    assert!(registry.get_topic("guide").is_some());
    assert_eq!(registry.get_topic("guide").unwrap().topic_type, TopicType::Markdown);
    assert_eq!(registry.get_topic("guide").unwrap().content, "# Header\nBody");

    assert!(registry.get_topic("short").is_none());
    assert!(registry.get_topic("empty_body").is_none());
}

#[test]
fn a_path_that_is_no_directory_is_invalid_input() {
    let mut registry = TopicRegistry::new();
    let err = registry.add_from_directory("notes.txt", DirectoryListing::NotADirectory).unwrap_err();
    assert_eq!(err.kind(), IoErrorKind::InvalidInput);
    assert_eq!(err.message, "Path is not a directory: notes.txt");
    assert!(registry.add_from_directory_if_exists(DirectoryListing::NotADirectory).is_ok());
}

#[test]
fn an_unreadable_entry_stops_the_load_and_keeps_what_came_before() {
    let entries = vec![
        file("first", TopicType::Text, "First\nbody one\n"),
        DirectoryEntry::TopicFile {
            stem: Some("second".to_string()),
            topic_type: TopicType::Text,
            content: Err(IoFailure::new(IoErrorKind::Other, "denied".to_string())),
        },
        file("third", TopicType::Text, "Third\nbody three\n"),
    ];
    let mut registry = TopicRegistry::new();
    let err = registry.add_from_directory_if_exists(DirectoryListing::Entries(entries)).unwrap_err();
    assert_eq!(err.message, "denied");
    assert!(registry.get_topic("first").is_some());
    assert!(registry.get_topic("third").is_none());
}

#[test]
fn the_title_is_the_first_non_blank_line_and_the_body_is_trimmed_at_its_end() {
    let entries = vec![file("notes", TopicType::Text, "\n  Notes  \n\n\nline one\nline two  \n\n")];
    let mut registry = TopicRegistry::new();
    registry.add_from_directory("d", DirectoryListing::Entries(entries)).unwrap();
    let topic = registry.get_topic("notes").unwrap();
    assert_eq!(topic.title, "Notes");
    assert_eq!(topic.content, "line one\nline two");
}

#[test]
fn topics_are_listed_by_name() {
    let mut registry = TopicRegistry::new();
    registry.add_topic(Topic::new("Zeta", "z", TopicType::Text, None));
    registry.add_topic(Topic::new("Alpha", "a", TopicType::Text, None));
    registry.add_topic(Topic::new("Mid", "m", TopicType::Markdown, Some("m".to_string())));
    let names: Vec<&str> = registry.list_topics().iter().map(|t| t.name.as_str()).collect();
    assert_eq!(names, ["alpha", "m", "zeta"]);

    let data = registry.topics_list_data("myapp help");
    assert_eq!(data.usage, "myapp help <topic>");
    let listed: Vec<(&str, &str)> = data.topics.iter().map(|t| (t.name.as_str(), t.title.as_str())).collect();
    assert_eq!(listed, [("alpha", "Alpha"), ("m", "Mid"), ("zeta", "Zeta")]);
}

#[test]
fn a_topic_page_renders_the_title_and_content() {
    let topic = Topic::new("Test Topic", "Body", TopicType::Text, None);
    let data = standout::topics::topic_data(&topic);
    assert_eq!(data.title, "Test Topic");
    assert_eq!(data.content, "Body");
}

#[test]
fn topic_files_are_text_or_markdown() {
    assert_eq!(standout::topics::topic_type_for_extension("txt"), Some(TopicType::Text));
    assert_eq!(standout::topics::topic_type_for_extension("md"), Some(TopicType::Markdown));
    assert_eq!(standout::topics::topic_type_for_extension("rst"), None);
}

#[test]
fn a_cloned_registry_holds_the_same_topics_and_grows_on_its_own() {
    let mut registry = TopicRegistry::new();
    registry.add_topic(Topic::new("Alpha", "a", TopicType::Text, None));
    let mut copy = registry.clone();
    copy.add_topic(Topic::new("Beta", "b", TopicType::Text, None));
    assert_eq!(registry.list_topics().len(), 1);
    assert_eq!(copy.list_topics().len(), 2);
    assert_eq!(copy.get_topic("alpha").unwrap().content, "a");
}

#[test]
fn an_ascii_title_names_its_topic_by_its_slug() {
    let mut registry = TopicRegistry::new();
    registry.add_topic(Topic::new("My Topic", "Content", TopicType::Text, None));
    let topic = registry.get_topic("my-topic").unwrap();
    assert_eq!(topic.title, "My Topic");
    assert_eq!(topic.content, "Content");
    assert!(registry.get_topic("My Topic").is_none());
}

#[test]
fn the_list_holds_each_added_topic_once() {
    let mut registry = TopicRegistry::new();
    registry.add_topic(Topic::new("Zeta", "z", TopicType::Text, None));
    registry.add_topic(Topic::new("Alpha", "a", TopicType::Text, None));
    registry.add_topic(Topic::new("Mid", "m", TopicType::Markdown, None));
    let names: Vec<&str> = registry.list_topics().iter().map(|t| t.name.as_str()).collect();
    assert_eq!(names, ["alpha", "mid", "zeta"]);
}

#[test]
fn a_directory_that_repeats_a_registered_name_collides() {
    let mut registry = TopicRegistry::new();
    registry
        .add_from_directory("one", DirectoryListing::Entries(vec![file("shared", TopicType::Text, "Title 1\nContent 1\n")]))
        .unwrap();
    let again = DirectoryListing::Entries(vec![file("shared", TopicType::Text, "Title 2\nContent 2\n")]);
    assert!(registry.directory_collides(&again));
    let fresh = DirectoryListing::Entries(vec![file("other", TopicType::Text, "Title 3\nContent 3\n")]);
    assert!(!registry.directory_collides(&fresh));
}

#[test]
fn a_directory_that_repeats_a_name_of_its_own_collides() {
    let registry = TopicRegistry::new();
    let twice = DirectoryListing::Entries(vec![
        file("dup", TopicType::Text, "One\nBody\n"),
        file("dup", TopicType::Markdown, "Two\nBody\n"),
    ]);
    assert!(registry.directory_collides(&twice));
    assert!(!registry.directory_collides(&DirectoryListing::Missing));
}

#[test]
fn names_after_an_unreadable_entry_never_collide() {
    let registry = TopicRegistry::new();
    let stopped = DirectoryListing::Entries(vec![
        file("dup", TopicType::Text, "One\nBody\n"),
        DirectoryEntry::Unreadable(IoFailure::new(IoErrorKind::Other, "denied".to_string())),
        file("dup", TopicType::Text, "Two\nBody\n"),
    ]);
    assert!(!registry.directory_collides(&stopped));
}

#[test]
fn a_delete_character_transliterates_to_nothing() {
    assert_eq!(Topic::generate_slug("a\u{7f}b"), "ab");
    assert_eq!(Topic::generate_slug("\u{7f}"), "");
}
