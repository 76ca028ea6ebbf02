//! Liquid templates: the standard parser, and rendering of templates whose
//! markup is limited to `{{ ... }}` outputs of names.

use vstd::prelude::*;
use std::collections::BTreeMap;
use crate::text::chars_of;

verus! {

broadcast use vstd::string::group_string_axioms;

#[verifier::external_type_specification]
#[verifier::external_body]
pub struct ExLiquidParser(liquid::Parser);

#[verifier::external_type_specification]
#[verifier::external_body]
pub struct ExLiquidTemplate(liquid::Template);

#[verifier::external_type_specification]
#[verifier::external_body]
pub struct ExLiquidError(liquid::Error);

/// The characters allowed inside a `{{ ... }}` output: ASCII letters, `_`,
/// `-`, `.` and white space. With them an output can only name a variable
/// (or one of liquid's word literals): no number, string, filter or index.
pub open spec fn is_output_char(c: char) -> bool {
    let u = c as u32;
    (65 <= u <= 90) || (97 <= u <= 122) || c == '_' || c == '-' || c == '.' || c == ' ' || c
        == '\t' || c == '\n' || c == '\r'
}

/// Whether `s`, read from index `i` on (inside an output or not), is plain
/// text with `{{ ... }}` outputs of names: no `{%` tag starts outside an
/// output, and every character inside an output, up to its `}}`, is an
/// output character.
pub open spec fn plain_from(s: Seq<char>, i: int, inside: bool) -> bool
    decreases s.len() - i,
{
    if i < 0 || i >= s.len() {
        true
    } else if !inside {
        if s[i] == '{' && i + 1 < s.len() && s[i + 1] == '%' {
            false
        } else if s[i] == '{' && i + 1 < s.len() && s[i + 1] == '{' {
            plain_from(s, i + 2, true)
        } else {
            plain_from(s, i + 1, false)
        }
    } else {
        if s[i] == '}' && i + 1 < s.len() && s[i + 1] == '}' {
            plain_from(s, i + 2, false)
        } else if is_output_char(s[i]) {
            plain_from(s, i + 1, true)
        } else {
            false
        }
    }
}

/// A template whose markup is only `{{ ... }}` outputs of names. Parsing
/// and rendering such a template neither panics nor depends on anything but
/// the text and the variables: it has no number literal, no filter and no
/// tag.
pub open spec fn is_plain_template(s: Seq<char>) -> bool {
    plain_from(s, 0, false)
}

fn output_char(c: char) -> (r: bool)
    ensures
        r == is_output_char(c),
{
    let u = c as u32;
    (65 <= u && u <= 90) || (97 <= u && u <= 122) || c == '_' || c == '-' || c == '.' || c
        == ' ' || c == '\t' || c == '\n' || c == '\r'
}

/// Whether `text` is a plain template.
pub fn plain_template(text: &str) -> (r: bool)
    ensures
        r == is_plain_template(text@),
{
    let v = chars_of(text);
    let n = v.len();
    let mut i: usize = 0;
    let mut inside = false;
    while i < n
        invariant
            v@ == text@,
            n == v.len(),
            i <= n + 1,
            plain_from(text@, 0, false) == plain_from(text@, i as int, inside),
        decreases n - i,
    {
        let c = v[i];
        let pair = i + 1 < n;
        if !inside {
            if c == '{' && pair && v[i + 1] == '%' {
                return false;
            } else if c == '{' && pair && v[i + 1] == '{' {
                inside = true;
                i = i + 2;
            } else {
                i = i + 1;
            }
        } else {
            if c == '}' && pair && v[i + 1] == '}' {
                inside = false;
                i = i + 2;
            } else if output_char(c) {
                i = i + 1;
            } else {
                return false;
            }
        }
    }
    true
}

/// A liquid parser with the standard tags and filters and nothing else.
/// Only `stdlib_parser` makes one.
pub struct StdlibParser {
    parser: liquid::Parser,
}

/// A template parsed by the standard parser from a plain template, kept
/// with its text. Only `parse_plain_template` makes one.
pub struct PlainTemplate {
    template: liquid::Template,
    source: String,
}

impl PlainTemplate {
    /// The text the template was parsed from.
    pub closed spec fn source(&self) -> Seq<char> {
        self.source@
    }
}

/// Whether liquid's parser with the standard tags and filters accepts
/// `text` as a template.
pub uninterp spec fn liquid_stdlib_parses(text: Seq<char>) -> bool;

/// What liquid renders for the plain template `source` with the string
/// variables `globals` (name and value; a later pair wins), or none when
/// rendering fails (for instance on an unknown variable).
pub uninterp spec fn liquid_plain_render(
    source: Seq<char>,
    globals: Seq<(Seq<char>, Seq<char>)>,
) -> Option<Seq<char>>;

/// The name-value pairs, by their characters.
pub open spec fn pairs_view(v: Seq<(String, String)>) -> Seq<(Seq<char>, Seq<char>)> {
    v.map_values(|p: (String, String)| (p.0@, p.1@))
}

/// A liquid parser with the standard tags and filters.
///
/// Trusted: calls `liquid::ParserBuilder::build` on
/// `ParserBuilder::with_stdlib()`. Its source fails only when compiling
/// partials fails, and this builder has none, so the result is always `Ok`.
#[verifier::external_body]
pub(crate) fn stdlib_parser() -> (r: Result<StdlibParser, liquid::Error>)
    ensures
        r is Ok,
{
    liquid::ParserBuilder::with_stdlib().build().map(|parser| StdlibParser { parser })
}

/// Parses a plain template.
///
/// Trusted: calls `liquid::Parser::parse` on a standard parser, keeping the
/// text beside the result. Whether it succeeds depends on the text alone and
/// is named `liquid_stdlib_parses`. Only plain templates are admitted: a
/// number literal too large for an `i64` makes the parser panic.
#[verifier::external_body]
pub(crate) fn parse_plain_template(parser: &StdlibParser, text: &str) -> (r: Result<
    PlainTemplate,
    liquid::Error,
>)
    requires
        is_plain_template(text@),
    ensures
        r is Ok <==> liquid_stdlib_parses(text@),
        r matches Ok(t) ==> t.source() == text@,
{
    parser.parser.parse(text).map(|template| PlainTemplate { template, source: text.to_owned() })
}

/// Renders a plain template with string variables.
///
/// Trusted: calls `liquid::Template::render` with the pairs as the globals
/// (a map, one entry per pair). A plain template has no filter and no tag,
/// so the output depends on its text and the variables alone and is named
/// `liquid_plain_render`, and rendering it does not panic.
#[verifier::external_body]
pub(crate) fn render_plain_template(
    template: &PlainTemplate,
    globals: &Vec<(String, String)>,
) -> (r: Result<String, liquid::Error>)
    ensures
        match liquid_plain_render(template.source(), pairs_view(globals@)) {
            Some(s) => r matches Ok(out) && out@ == s,
            None => r is Err,
        },
{
    let globals: BTreeMap<String, String> = globals.iter().cloned().collect();
    template.template.render(&globals)
}

} // verus!
