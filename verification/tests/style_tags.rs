use standout::cli::handler::RunErrorKind;
use standout::cli::style_tags::{
    strict_style_tags_from_env, unique_tag_names, unresolved_style_tags_error, validate_framework_template_content,
    validate_inline_template_tags, TagProblem, TemplateTagError,
};
use standout::text::decimal_string;
use standout::setup::SetupError;

fn problem(tag: &str, malformed: bool, defined: bool) -> TagProblem {
    TagProblem { tag: tag.to_string(), malformed, defined }
}

#[test]
fn tag_names_come_once_each_in_string_order() {
    let tags = ["warn", "bold", "warn", "accent", "bold"].map(String::from).to_vec();
    assert_eq!(unique_tag_names(&tags), ["accent", "bold", "warn"]);
    assert!(unique_tag_names(&Vec::new()).is_empty());
}

#[test]
fn malformed_markup_is_refused_before_undefined_styles() {
    let problems = vec![problem("zeta", false, false), problem("b", true, true), problem("a", true, false), problem("b", true, true)];
    assert_eq!(
        validate_inline_template_tags("help", &problems),
        Err(TemplateTagError::Malformed(
            "template `help` contains malformed style markup involving tag(s): a, b".to_string()
        ))
    );
}

#[test]
fn undefined_styles_are_named() {
    let problems = vec![problem("zeta", false, false), problem("alpha", false, false), problem("ok", false, true)];
    assert_eq!(
        validate_inline_template_tags("topic", &problems),
        Err(TemplateTagError::Undefined(
            "template `topic` emits style tag(s) not defined by the resolved theme: alpha, zeta".to_string()
        ))
    );
}

#[test]
fn no_problems_pass() {
    assert_eq!(validate_inline_template_tags("topic", &Vec::new()), Ok(()));
    assert_eq!(validate_inline_template_tags("topic", &vec![problem("ok", false, true)]), Ok(()));
}

#[test]
fn strict_style_tags_env_reads_truthy_spellings_and_nothing_else() {
    for truthy in ["1", "true", "TRUE", "Yes", "on", "  on  "] {
        assert!(strict_style_tags_from_env(Some(truthy.into())), "{truthy:?} should enable strict mode");
    }
    for falsy in ["0", "false", "no", "off", "", "enabled"] {
        assert!(!strict_style_tags_from_env(Some(falsy.into())), "{falsy:?} should not enable strict mode");
    }
    assert!(!strict_style_tags_from_env(None), "an unset variable should not enable strict mode");
}

fn template_message(result: Result<(), SetupError>) -> String {
    match result {
        Err(SetupError::Template(message)) => message,
        other => panic!("{other:?}"),
    }
}

#[test]
fn framework_template_validation_reports_malformed_markup_separately() {
    // `[known]unclosed`: the known tag is never closed.
    let error = template_message(validate_framework_template_content("standout/broken", &vec![problem("known", true, true)]));
    assert!(error.contains("malformed style markup"), "{error}");
    assert!(error.contains("known"), "{error}");
    assert!(!error.contains("not defined by the resolved theme"), "{error}");
}

#[test]
fn framework_template_validation_reports_only_missing_styles() {
    // `[missing]text[/missing]`: balanced, but no style is called `missing`.
    let error = template_message(validate_framework_template_content("standout/missing", &vec![problem("missing", false, false)]));
    assert!(error.contains("not defined by the resolved theme"), "{error}");
    assert!(error.contains("missing"), "{error}");
    assert!(!error.contains("malformed style markup"), "{error}");
}

#[test]
fn every_resolved_tag_means_no_strict_error() {
    assert!(unresolved_style_tags_error(&Vec::new()).is_none());
}

#[test]
fn one_unresolved_tag_is_named_in_the_singular() {
    let e = unresolved_style_tags_error(&vec!["hdr".to_string()]).unwrap();
    assert_eq!(e.kind(), RunErrorKind::Render);
    assert_eq!(
        e.as_str(),
        "strict_style_tags is enabled and the render left 1 style tag unresolved: hdr. It is not defined in the \
         active theme (a typo, or a tag the theme does not style). Define it in the theme, correct the tag name, \
         or disable strict_style_tags to degrade to unstyled text instead."
    );
}

#[test]
fn several_unresolved_tags_are_counted_and_listed() {
    let tags: Vec<String> = (0..12).map(|i| format!("t{i}")).collect();
    let e = unresolved_style_tags_error(&tags).unwrap();
    assert!(e.as_str().starts_with("strict_style_tags is enabled and the render left 12 style tags unresolved: t0, t1, t2,"));
    assert!(e.as_str().contains("t11. They are not defined in the active theme"));
    assert!(e.as_str().contains("Define them in the theme"));
}

#[test]
fn numbers_are_written_in_decimal() {
    assert_eq!(decimal_string(0), "0");
    assert_eq!(decimal_string(7), "7");
    assert_eq!(decimal_string(10), "10");
    assert_eq!(decimal_string(1234567890), "1234567890");
    assert_eq!(decimal_string(usize::MAX), usize::MAX.to_string());
}
