use standout::assets::{FRAMEWORK_STYLES, FRAMEWORK_TEMPLATES};

#[test]
fn test_framework_templates_not_empty() {
    assert!(!FRAMEWORK_TEMPLATES.is_empty());
}

#[test]
fn test_all_templates_have_extension() {
    for (name, _) in FRAMEWORK_TEMPLATES {
        assert!(name.ends_with(".jinja"), "Template {} should have .jinja extension", name);
    }
}

#[test]
fn test_all_templates_in_standout_namespace() {
    for (name, _) in FRAMEWORK_TEMPLATES {
        assert!(name.starts_with("standout/"), "Template {} should be in standout/ namespace", name);
    }
}

#[test]
fn every_view_has_a_framework_template_and_styles_are_namespaced() {
    let names: Vec<&str> = FRAMEWORK_TEMPLATES.iter().map(|(name, _)| *name).collect();
    for view in ["list-view", "detail-view", "create-view", "update-view", "delete-view"] {
        assert!(names.contains(&format!("standout/{view}.jinja").as_str()), "{view}");
    }
    for level in ["muted", "error", "warning", "info", "success", "header"] {
        assert!(FRAMEWORK_STYLES.contains(&format!("standout-{level}:")), "{level}");
    }
}
