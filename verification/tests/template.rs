use plugin_cli::template::plain_template;

#[test]
fn plain_templates() {
    assert!(plain_template(""));
    assert!(plain_template("text { } %} only"));
    assert!(plain_template("{{ plugin_name }} and {{project_name}}"));
    assert!(plain_template("{{- a.b -}}\n"));
    assert!(plain_template("{{ unterminated name"));
}

#[test]
fn templates_with_other_markup() {
    assert!(!plain_template("{% raw %}"));
    assert!(!plain_template("{{ a | upcase }}"));
    assert!(!plain_template("{{ 1 }}"));
    assert!(!plain_template("{{ 'x' }}"));
    assert!(!plain_template("{{ a {{ b }}"));
    assert!(!plain_template("{{ a }} {%"));
}
