use plugin_cli::create::{
    cloned_git_dir, copy_destination, git_clone_args, git_init_args, plan_create,
    plugin_globals, render_plugin_file, TemplateError, TEMPLATE_REPO,
};

#[test]
fn create_defaults_to_the_template_repository() {
    let plan = plan_create("my-plugin".to_string(), None, None);
    assert_eq!(plan.name, "my-plugin");
    assert_eq!(plan.template, TEMPLATE_REPO);
    assert_eq!(plan.template, "https://github.com/Triple-A-Software/plugin-template");
    assert!(plan.git_template);
}

#[test]
fn create_with_local_template() {
    let plan = plan_create("p".to_string(), Some("../tpl".to_string()), Some(false));
    assert_eq!(plan.template, "../tpl");
    assert!(!plan.git_template);
}

#[test]
fn git_commands() {
    let plan = plan_create("p".to_string(), None, None);
    assert_eq!(
        git_clone_args(&plan),
        vec!["clone", TEMPLATE_REPO, "p", "--depth", "1"]
    );
    assert_eq!(git_init_args(&plan), vec!["init", "p"]);
    assert_eq!(cloned_git_dir(&plan), "p/.git");
}

#[test]
fn copied_files_keep_their_relative_place() {
    assert_eq!(
        copy_destination("my-plugin", "/tpl", "/tpl/src/index.ts"),
        Some("my-plugin/src/index.ts".to_string())
    );
    assert_eq!(copy_destination("my-plugin", "/tpl", "/elsewhere/x"), None);
    assert_eq!(copy_destination("my-plugin", "/tpl", "/tpl"), Some("my-plugin/".to_string()));
    assert_eq!(copy_destination("my-plugin", "/tpl", "/tplx/a"), None);
    assert_eq!(
        copy_destination("my-plugin", "tpl/", "tpl//a/./b"),
        Some("my-plugin/a/./b".to_string())
    );
}

#[test]
fn template_gets_the_plugin_name() {
    let out = render_plugin_file(
        "{\"name\": \"{{ plugin_name }}\", \"project\": \"{{ project_name }}\"}",
        "weather",
    )
    .unwrap();
    assert_eq!(out, "{\"name\": \"weather\", \"project\": \"weather\"}");
}

#[test]
fn whitespace_control_and_plain_text_are_kept() {
    assert_eq!(
        render_plugin_file("a {{- plugin_name -}} b { } }}", "x").unwrap(),
        "axb { } }}"
    );
    assert_eq!(render_plugin_file("no markup at all", "x").unwrap(), "no markup at all");
}

#[test]
fn markup_beyond_names_is_unsupported() {
    for text in [
        "{{ plugin_name | upcase }}",
        "{% if plugin_name %}x{% endif %}",
        "{{ 99999999999999999999 }}",
        "{{ -9223372036854775808 | divided_by: -1 }}",
        "{{ \"quoted\" }}",
        "{{ list[0] }}",
    ] {
        assert_eq!(render_plugin_file(text, "p"), Err(TemplateError::Unsupported), "{text}");
    }
}

#[test]
fn broken_template_is_a_parse_error() {
    assert!(matches!(render_plugin_file("{{ plugin_name", "p"), Err(TemplateError::Parse(_))));
    assert!(matches!(render_plugin_file("{{ }}", "p"), Err(TemplateError::Parse(_))));
}

#[test]
fn unknown_variable_is_a_render_error() {
    assert!(matches!(render_plugin_file("{{ nope }}", "p"), Err(TemplateError::Render(_))));
}

#[test]
fn template_variables_are_the_plugin_name() {
    assert_eq!(
        plugin_globals("weather"),
        vec![
            ("plugin_name".to_string(), "weather".to_string()),
            ("project_name".to_string(), "weather".to_string()),
        ]
    );
}
