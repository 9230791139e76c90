use standout::cli::group::{
    output_after_step, step_input, CommandConfig, Hooks, PostOutputStep, RenderedOutput, TemplateChoice, TextOutput,
    DEFAULT_PIPE_TIMEOUT_SECS,
};
use standout::cli::handler::{HookPhase, RunErrorKind};
use standout::cli::templates::{TemplateAbsence, TemplateRef};

#[test]
fn test_command_config_template_name() {
    let config = CommandConfig::new(()).template_name("inner");
    assert_eq!(config.template, TemplateChoice::Named("inner".to_string()));
}

#[test]
fn a_new_command_renders_the_template_its_path_names() {
    let config = CommandConfig::new(());
    assert_eq!(config.template("db.migrate"), TemplateRef::Named("db/migrate".to_string()));
    assert!(config.hooks.is_none());
    assert!(!config.pageable);
}

#[test]
fn the_last_template_call_wins() {
    let config = CommandConfig::new(()).template_name("inner").structured_only();
    assert_eq!(config.template("list"), TemplateRef::Absent(TemplateAbsence::StructuredOnly));
    let config = CommandConfig::new(()).silent().template_name("inner");
    assert_eq!(config.template("list"), TemplateRef::Named("inner".to_string()));
    let config = CommandConfig::new(()).binary();
    assert_eq!(config.template("list"), TemplateRef::Absent(TemplateAbsence::Binary));
    let config = CommandConfig::new(()).binary().silent();
    assert_eq!(config.template("list"), TemplateRef::Absent(TemplateAbsence::Silent));
}

#[test]
fn pipes_run_in_the_order_they_were_added_with_the_default_timeout() {
    let config = CommandConfig::new(()).pageable().pipe_to("pbcopy").pipe_through("sort");
    assert!(config.pageable);
    let steps = &config.hooks.as_ref().unwrap().post_output;
    assert_eq!(DEFAULT_PIPE_TIMEOUT_SECS, 30);
    assert_eq!(
        steps,
        &vec![
            PostOutputStep::PipeTo { command: "pbcopy".into(), timeout_secs: 30 },
            PostOutputStep::PipeThrough { command: "sort".into(), timeout_secs: 30 },
        ]
    );
    let config = config.pipe_to_with_timeout("tee log", 5);
    assert_eq!(
        config.hooks.unwrap().post_output.last(),
        Some(&PostOutputStep::PipeTo { command: "tee log".into(), timeout_secs: 5 })
    );
}

#[test]
fn set_hooks_replace_the_earlier_ones() {
    let config = CommandConfig::new(()).pipe_to("a").hooks(Hooks::new());
    assert!(config.hooks.unwrap().post_output.is_empty());
}

fn text(t: &str) -> RenderedOutput {
    RenderedOutput::Text(TextOutput { formatted: format!("*{}*", t), raw: t.to_string() })
}

#[test]
fn a_step_reads_the_unstyled_text_and_nothing_else() {
    assert_eq!(step_input(&text("plain")), Some("plain"));
    assert_eq!(step_input(&RenderedOutput::Silent), None);
    assert_eq!(step_input(&RenderedOutput::Binary(vec![1], "x.bin".to_string())), None);
}

#[test]
fn piping_to_keeps_the_output_and_piping_through_replaces_it() {
    let to = PostOutputStep::PipeTo { command: "cat".to_string(), timeout_secs: 5 };
    let through = PostOutputStep::PipeThrough { command: "tr a-z A-Z".to_string(), timeout_secs: 5 };
    match output_after_step(&to, text("kept"), Ok("printed".to_string())).unwrap() {
        RenderedOutput::Text(t) => {
            assert_eq!(t.formatted, "*kept*");
            assert_eq!(t.raw, "kept");
        }
        other => panic!("expected text, got {:?}", other),
    }
    match output_after_step(&through, text("kept"), Ok("PRINTED".to_string())).unwrap() {
        RenderedOutput::Text(t) => {
            assert_eq!(t.formatted, "PRINTED");
            assert_eq!(t.raw, "PRINTED");
        }
        other => panic!("expected text, got {:?}", other),
    }
}

#[test]
fn a_failed_pipe_is_a_post_output_hook_error() {
    let through = PostOutputStep::PipeThrough { command: "false".to_string(), timeout_secs: 5 };
    let error = output_after_step(&through, text("kept"), Err("`false` exited with 1".to_string())).unwrap_err();
    assert_eq!(error.as_str(), "Error: hook error (post-output): `false` exited with 1");
    assert_eq!(error.kind(), RunErrorKind::Hook(HookPhase::PostOutput));
}

#[test]
fn output_that_is_not_text_passes_through_a_step() {
    let through = PostOutputStep::PipeThrough { command: "cat".to_string(), timeout_secs: 5 };
    match output_after_step(&through, RenderedOutput::Binary(vec![7, 8], "d.bin".to_string()), Err("unused".to_string())).unwrap() {
        RenderedOutput::Binary(bytes, name) => {
            assert_eq!(bytes, vec![7, 8]);
            assert_eq!(name, "d.bin");
        }
        other => panic!("expected the bytes, got {:?}", other),
    }
    assert!(matches!(
        output_after_step(&through, RenderedOutput::Silent, Ok("x".to_string())).unwrap(),
        RenderedOutput::Silent
    ));
}
