//! Creating a new plugin from a template.

use vstd::prelude::*;
use crate::paths::{join_path, spec_join, std_strip_prefix, strip_path_prefix};
use crate::template::{
    is_plain_template, liquid_plain_render, liquid_stdlib_parses, pairs_view, parse_plain_template,
    plain_template, render_plain_template, stdlib_parser,
};
use crate::text::strs;

verus! {

broadcast use vstd::string::group_string_axioms;

/// The template that new plugins start from unless another is given.
pub const TEMPLATE_REPO: &'static str = "https://github.com/Triple-A-Software/plugin-template";

/// How a plugin is created.
#[derive(Debug, Clone, PartialEq, Eq)]
pub struct CreatePlan {
    /// The plugin's name, which is also the directory it is created in.
    pub name: String,
    /// Where the template comes from.
    pub template: String,
    /// Whether `template` is a git remote to clone (else a directory to copy).
    pub git_template: bool,
}

/// Settles how a plugin is created: the template defaults to the standard
/// template repository, which is a git remote.
pub fn plan_create(name: String, template: Option<String>, git_template: Option<bool>) -> (r:
    CreatePlan)
    ensures
        r.name == name,
        r.template@ == match template {
            Some(t) => t@,
            None => TEMPLATE_REPO@,
        },
        r.git_template == match git_template {
            Some(g) => g,
            None => true,
        },
{
    let template = match template {
        Some(t) => t,
        None => TEMPLATE_REPO.to_owned(),
    };
    let git_template = match git_template {
        Some(g) => g,
        None => true,
    };
    CreatePlan { name, template, git_template }
}

/// The arguments of the `git` call that fetches a template: a shallow
/// clone of the template into the plugin's directory.
pub fn git_clone_args(plan: &CreatePlan) -> (r: Vec<String>)
    ensures
        strs(r@) == seq!["clone"@, plan.template@, plan.name@, "--depth"@, "1"@],
{
    let mut v: Vec<String> = Vec::new();
    v.push("clone".to_owned());
    v.push(plan.template.clone());
    v.push(plan.name.clone());
    v.push("--depth".to_owned());
    v.push("1".to_owned());
    assert(strs(v@) =~= seq!["clone"@, plan.template@, plan.name@, "--depth"@, "1"@]);
    v
}

/// The git metadata of a cloned template, which is removed so that the
/// plugin starts without the template's history.
pub fn cloned_git_dir(plan: &CreatePlan) -> (r: String)
    ensures
        r@ == spec_join(plan.name@, ".git"@),
{
    join_path(plan.name.as_str(), ".git")
}

/// The arguments of the `git` call that starts the plugin's own repository.
pub fn git_init_args(plan: &CreatePlan) -> (r: Vec<String>)
    ensures
        strs(r@) == seq!["init"@, plan.name@],
{
    let mut v: Vec<String> = Vec::new();
    v.push("init".to_owned());
    v.push(plan.name.clone());
    assert(strs(v@) =~= seq!["init"@, plan.name@]);
    v
}

/// Where a file of a template directory is copied to: the same place
/// relative to the plugin's directory. None when `entry` is not inside
/// `template_root`.
pub fn copy_destination(project: &str, template_root: &str, entry: &str) -> (r: Option<String>)
    ensures
        match std_strip_prefix(entry@, template_root@) {
            Some(rel) => r matches Some(d) && d@ == spec_join(project@, rel),
            None => r is None,
        },
{
    match strip_path_prefix(entry, template_root) {
        Some(rel) => Some(join_path(project, rel.as_str())),
        None => None,
    }
}

/// Why a template file could not be filled in.
#[derive(Debug, Clone, PartialEq, Eq)]
pub enum TemplateError {
    /// The file has liquid markup beyond `{{ ... }}` outputs of names (a
    /// tag, a filter, a literal), which is not filled in here: liquid's
    /// parser panics on number literals too large for an `i64`, and its math
    /// filters and float literals compute with floating point.
    Unsupported,
    /// The parser could not be set up (the standard parser always can).
    Parser(String),
    /// The file is not a valid liquid template.
    Parse(String),
    /// The template could not be rendered.
    Render(String),
}

/// The variables of a plugin's template files: `plugin_name` and
/// `project_name`, both the plugin's name.
pub open spec fn spec_plugin_globals(name: Seq<char>) -> Seq<(Seq<char>, Seq<char>)> {
    seq![("plugin_name"@, name), ("project_name"@, name)]
}

/// The variables of a plugin's template files.
pub fn plugin_globals(name: &str) -> (r: Vec<(String, String)>)
    ensures
        pairs_view(r@) == spec_plugin_globals(name@),
{
    let mut v: Vec<(String, String)> = Vec::new();
    v.push(("plugin_name".to_owned(), name.to_owned()));
    v.push(("project_name".to_owned(), name.to_owned()));
    assert(pairs_view(v@) =~= spec_plugin_globals(name@));
    v
}

/// Fills the plugin's name into a file of the template: the file is a
/// liquid template in which both `plugin_name` and `project_name` stand for
/// `name`. Only plain templates are filled in (`{{ ... }}` outputs of
/// names); other markup gives `Unsupported`. A plain file that is not a
/// valid template gives a parse error; a valid one is rendered, which gives
/// liquid's text or a render error.
pub fn render_plugin_file(contents: &str, name: &str) -> (r: Result<String, TemplateError>)
    ensures
        !is_plain_template(contents@) ==> r == Err::<String, TemplateError>(
            TemplateError::Unsupported,
        ),
        is_plain_template(contents@) && !liquid_stdlib_parses(contents@) ==> (r matches Err(
            TemplateError::Parse(_),
        )),
        is_plain_template(contents@) && liquid_stdlib_parses(contents@) ==> match liquid_plain_render(
            contents@,
            spec_plugin_globals(name@),
        ) {
            Some(out) => (r matches Ok(s) && s@ == out),
            None => (r matches Err(TemplateError::Render(_))),
        },
{
    if !plain_template(contents) {
        return Err(TemplateError::Unsupported);
    }
    let parser = match stdlib_parser() {
        Ok(p) => p,
        Err(e) => return Err(TemplateError::Parser(e.to_string())),
    };
    let template = match parse_plain_template(&parser, contents) {
        Ok(t) => t,
        Err(e) => return Err(TemplateError::Parse(e.to_string())),
    };
    let globals = plugin_globals(name);
    match render_plain_template(&template, &globals) {
        Ok(s) => Ok(s),
        Err(e) => Err(TemplateError::Render(e.to_string())),
    }
}

} // verus!
