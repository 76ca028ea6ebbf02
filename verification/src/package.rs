//! Packaging a plugin: the manifest, the checks made before an archive is
//! written, and the list of files that go into it.

use vstd::prelude::*;
use crate::paths::{
    join_path, path_extension, spec_join, spec_path_extension, std_strip_prefix, strip_path_prefix,
};
use crate::text::{chars_of, decimal, opt_view, spec_decimal, strs};

verus! {

broadcast use vstd::string::group_string_axioms;

/// The part of a plugin's `plugin.json` that packaging reads.
#[derive(Debug, Clone)]
pub struct PluginManifest {
    pub name: String,
    pub version: String,
    /// Glob patterns of the files to ship.
    pub include_files: Vec<String>,
    /// The command line that starts the plugin, e.g. `./bin/bun run index.js`.
    pub bin: Option<String>,
    /// A picture shown by the store, relative to the plugin directory.
    pub hero_image: Option<String>,
}

/// The name of a plugin's archive: `{name}-{version}.tar.gz`.
pub open spec fn spec_archive_name(name: Seq<char>, version: Seq<char>) -> Seq<char> {
    name + "-"@ + version + ".tar.gz"@
}

impl PluginManifest {
    /// The file name of the plugin's archive.
    pub fn archive_name(&self) -> (r: String)
        ensures
            r@ == spec_archive_name(self.name@, self.version@),
    {
        let mut s = self.name.clone();
        s.append("-");
        s.append(self.version.as_str());
        s.append(".tar.gz");
        s
    }
}

/// The characters that `char::is_whitespace` accepts: those with the
/// Unicode `White_Space` property.
pub open spec fn is_white_space(c: char) -> bool {
    let u = c as u32;
    (0x9 <= u <= 0xd) || u == 0x20 || u == 0x85 || u == 0xa0 || u == 0x1680 || (0x2000 <= u
        <= 0x200a) || u == 0x2028 || u == 0x2029 || u == 0x202f || u == 0x205f || u == 0x3000
}

/// Whether `c` is white space.
pub fn white_space(c: char) -> (r: bool)
    ensures
        r == is_white_space(c),
{
    let u = c as u32;
    (0x9 <= u && u <= 0xd) || u == 0x20 || u == 0x85 || u == 0xa0 || u == 0x1680 || (0x2000 <= u
        && u <= 0x200a) || u == 0x2028 || u == 0x2029 || u == 0x202f || u == 0x205f || u == 0x3000
}

/// `s` without its leading white space.
pub open spec fn skip_white_space(s: Seq<char>) -> Seq<char>
    decreases s.len(),
{
    if s.len() > 0 && is_white_space(s[0]) {
        skip_white_space(s.drop_first())
    } else {
        s
    }
}

/// The longest prefix of `s` without white space.
pub open spec fn leading_word(s: Seq<char>) -> Seq<char>
    decreases s.len(),
{
    if s.len() > 0 && !is_white_space(s[0]) {
        seq![s[0]] + leading_word(s.drop_first())
    } else {
        Seq::empty()
    }
}

/// The program of a `bin` command line: its first white-space separated
/// word, or the whole line when it has none.
pub open spec fn spec_bin_program(bin: Seq<char>) -> Seq<char> {
    let w = leading_word(skip_white_space(bin));
    if w.len() == 0 {
        bin
    } else {
        w
    }
}

proof fn lemma_skip_white_space_suffix(s: Seq<char>, i: int)
    requires
        0 <= i <= s.len(),
        forall|k: int| 0 <= k < i ==> is_white_space(#[trigger] s[k]),
    ensures
        skip_white_space(s) == skip_white_space(s.subrange(i, s.len() as int)),
    decreases i,
{
    if i > 0 {
        assert(s.drop_first() =~= s.subrange(1, s.len() as int));
        lemma_skip_white_space_suffix(s.drop_first(), i - 1);
        assert(s.drop_first().subrange(i - 1, s.drop_first().len() as int) =~= s.subrange(
            i,
            s.len() as int,
        ));
    } else {
        assert(s.subrange(0, s.len() as int) =~= s);
    }
}

proof fn lemma_leading_word_prefix(s: Seq<char>, j: int)
    requires
        0 <= j <= s.len(),
        forall|k: int| 0 <= k < j ==> !is_white_space(#[trigger] s[k]),
        j == s.len() || is_white_space(s[j]),
    ensures
        leading_word(s) == s.subrange(0, j),
    decreases j,
{
    if j > 0 {
        lemma_leading_word_prefix(s.drop_first(), j - 1);
        assert(seq![s[0]] + s.drop_first().subrange(0, j - 1) =~= s.subrange(0, j));
    } else {
        assert(s.subrange(0, 0) =~= Seq::<char>::empty());
    }
}

/// The program that a `bin` command line runs, as `split_whitespace`
/// finds it.
pub fn bin_program(bin: &str) -> (r: &str)
    ensures
        r@ == spec_bin_program(bin@),
{
    let v = chars_of(bin);
    let n = v.len();
    let mut i: usize = 0;
    while i < n && white_space(v[i])
        invariant
            v@ == bin@,
            n == v.len(),
            i <= n,
            forall|k: int| 0 <= k < i ==> is_white_space(#[trigger] v@[k]),
        decreases n - i,
    {
        i = i + 1;
    }
    let mut j: usize = i;
    while j < n && !white_space(v[j])
        invariant
            v@ == bin@,
            n == v.len(),
            i <= j <= n,
            forall|k: int| i <= k < j ==> !is_white_space(#[trigger] v@[k]),
        decreases n - j,
    {
        j = j + 1;
    }
    proof {
        lemma_skip_white_space_suffix(bin@, i as int);
        let rest = bin@.subrange(i as int, n as int);
        assert(i == n || !is_white_space(rest[0]));
        assert(skip_white_space(rest) == rest);
        assert forall|k: int| 0 <= k < j - i implies !is_white_space(#[trigger] rest[k]) by {
            assert(rest[k] == v@[i + k]);
        }
        if j < n {
            assert(rest[j - i] == v@[j as int]);
        }
        lemma_leading_word_prefix(rest, j - i);
        assert(rest.subrange(0, j - i) =~= bin@.subrange(i as int, j as int));
    }
    if i == j {
        bin
    } else {
        bin.substring_char(i, j)
    }
}

/// A program given as a path (it starts with `.` or holds a `/`), as
/// opposed to a bare command that is looked up in `PATH`.
pub open spec fn is_path_program(program: Seq<char>) -> bool {
    (program.len() > 0 && program[0] == '.') || program.contains('/')
}

/// `s` with every leading `./` removed, as `trim_start_matches("./")` does.
pub open spec fn trim_dot_slash(s: Seq<char>) -> Seq<char>
    decreases s.len(),
{
    if s.len() >= 2 && s[0] == '.' && s[1] == '/' {
        trim_dot_slash(s.subrange(2, s.len() as int))
    } else {
        s
    }
}

/// Whether `program` is given as a path.
pub fn path_program(program: &str) -> (r: bool)
    ensures
        r == is_path_program(program@),
{
    let v = chars_of(program);
    if v.len() > 0 && v[0] == '.' {
        return true;
    }
    let mut i: usize = 0;
    while i < v.len()
        invariant
            v@ == program@,
            i <= v.len(),
            forall|k: int| 0 <= k < i ==> v@[k] != '/',
        decreases v.len() - i,
    {
        if v[i] == '/' {
            assert(program@[i as int] == '/');
            return true;
        }
        i = i + 1;
    }
    assert(!program@.contains('/'));
    false
}

proof fn lemma_trim_dot_slash_step(s: Seq<char>, i: int)
    requires
        0 <= i <= s.len(),
        trim_dot_slash(s) == trim_dot_slash(s.subrange(i, s.len() as int)),
        i + 2 <= s.len(),
        s[i] == '.',
        s[i + 1] == '/',
    ensures
        trim_dot_slash(s) == trim_dot_slash(s.subrange(i + 2, s.len() as int)),
{
    let t = s.subrange(i, s.len() as int);
    assert(t.subrange(2, t.len() as int) =~= s.subrange(i + 2, s.len() as int));
}

/// `s` with every leading `./` removed.
pub fn trim_leading_dot_slash(s: &str) -> (r: &str)
    ensures
        r@ == trim_dot_slash(s@),
{
    let v = chars_of(s);
    let n = v.len();
    let mut i: usize = 0;
    assert(s@.subrange(0, n as int) =~= s@);
    while n - i >= 2 && v[i] == '.' && v[i + 1] == '/'
        invariant
            v@ == s@,
            n == v.len(),
            i <= n,
            trim_dot_slash(s@) == trim_dot_slash(s@.subrange(i as int, n as int)),
        decreases n - i,
    {
        proof {
            lemma_trim_dot_slash_step(s@, i as int);
        }
        i = i + 2;
    }
    proof {
        let t = s@.subrange(i as int, n as int);
        if t.len() >= 2 {
            assert(t[0] == v@[i as int] && t[1] == v@[i + 1]);
        }
        assert(trim_dot_slash(t) == t);
    }
    s.substring_char(i, n)
}

/// The file that must exist for the `bin` command line: the joined path of
/// its program when the program is given as a path, none for a bare command.
pub open spec fn spec_bin_target(dir: Seq<char>, bin: Seq<char>) -> Option<Seq<char>> {
    let program = spec_bin_program(bin);
    if is_path_program(program) {
        Some(spec_join(dir, trim_dot_slash(program)))
    } else {
        None
    }
}

/// The file whose existence the `bin` command line needs, if any.
pub fn bin_target(dir: &str, bin: &str) -> (r: Option<String>)
    ensures
        r matches Some(t) ==> spec_bin_target(dir@, bin@) == Some(t@),
        r is None <==> spec_bin_target(dir@, bin@) is None,
{
    let program = bin_program(bin);
    if path_program(program) {
        Some(join_path(dir, trim_leading_dot_slash(program)))
    } else {
        None
    }
}

/// `c` matches the lower-case letter or symbol `l` when ASCII case is
/// ignored.
pub open spec fn matches_lowercase(c: char, l: char) -> bool {
    c == l || (65 <= (c as u32) <= 90 && (c as u32) + 32 == (l as u32))
}

/// `ext`, lower-cased in ASCII, equals the lower-case name `lower`.
pub open spec fn ext_is(ext: Seq<char>, lower: Seq<char>) -> bool {
    ext.len() == lower.len() && forall|i: int| 0 <= i < ext.len() ==> matches_lowercase(ext[i], lower[i])
}

/// The picture formats that the store recommends for a hero image.
pub open spec fn is_recommended_format(ext: Seq<char>) -> bool {
    ext_is(ext, "png"@) || ext_is(ext, "jpg"@) || ext_is(ext, "jpeg"@) || ext_is(ext, "webp"@)
        || ext_is(ext, "svg"@)
}

/// Whether a hero image at `path` has a recommended format, judged by its
/// extension.
pub open spec fn spec_hero_format_ok(path: Seq<char>) -> bool {
    match spec_path_extension(path) {
        Some(e) => is_recommended_format(e),
        None => false,
    }
}

fn ext_matches(ext: &Vec<char>, lower: &str) -> (r: bool)
    ensures
        r == ext_is(ext@, lower@),
{
    let l = chars_of(lower);
    if ext.len() != l.len() {
        return false;
    }
    let mut i: usize = 0;
    while i < ext.len()
        invariant
            l@ == lower@,
            ext.len() == l.len(),
            i <= ext.len(),
            forall|k: int| 0 <= k < i ==> matches_lowercase(ext@[k], l@[k]),
        decreases ext.len() - i,
    {
        let c = ext[i];
        let d = l[i];
        let cu = c as u32;
        let du = d as u32;
        let ok = c == d || (65 <= cu && cu <= 90 && cu + 32 == du);
        if !ok {
            assert(!matches_lowercase(ext@[i as int], lower@[i as int]));
            return false;
        }
        i = i + 1;
    }
    true
}

/// Whether the hero image at `path` has one of the recommended formats.
pub fn hero_format_ok(path: &str) -> (r: bool)
    ensures
        r == spec_hero_format_ok(path@),
{
    match path_extension(path) {
        None => false,
        Some(e) => {
            let v = chars_of(e);
            ext_matches(&v, "png") || ext_matches(&v, "jpg") || ext_matches(&v, "jpeg")
                || ext_matches(&v, "webp") || ext_matches(&v, "svg")
        },
    }
}

/// Files larger than this many bytes are over the recommended hero image
/// size.
pub const RECOMMENDED_MAX_BYTES: u64 = 512000;

/// What the file system said about the files that a manifest declares.
pub struct IncludeChecks {
    /// For each `include_files` pattern, whether it is valid and matches at
    /// least one file.
    pub pattern_matched: Vec<bool>,
    /// Whether the file named by `bin_target` exists (ignored when there is
    /// none).
    pub bin_found: bool,
    /// Whether the hero image is a file.
    pub hero_is_file: bool,
    /// The hero image's size in bytes, when it could be read.
    pub hero_size: Option<u64>,
}

/// The outcome of the checks: packaging is refused when there are errors;
/// warnings are only shown.
pub struct IncludeReport {
    pub errors: Vec<String>,
    pub warnings: Vec<String>,
}

pub open spec fn pattern_error(pattern: Seq<char>) -> Seq<char> {
    "include_files pattern \""@ + pattern + "\" matched no files"@
}

pub open spec fn bin_error(program: Seq<char>, full: Seq<char>) -> Seq<char> {
    "bin program \""@ + program + "\" does not exist (looked for "@ + full + ")"@
}

pub open spec fn hero_missing_error(hero: Seq<char>, full: Seq<char>) -> Seq<char> {
    "hero_image \""@ + hero + "\" does not exist (looked for "@ + full + ")"@
}

pub open spec fn hero_format_warning(hero: Seq<char>) -> Seq<char> {
    "hero_image \""@ + hero + "\" has an unexpected format; recommended: PNG, JPG, WebP, SVG"@
}

pub open spec fn hero_size_warning(hero: Seq<char>, size: nat) -> Seq<char> {
    "hero_image \""@ + hero + "\" is "@ + spec_decimal(size / 1024) + " KB, over the recommended "@
        + spec_decimal(500) + " KB cap"@
}

/// One error for each pattern that matched nothing, in order.
pub open spec fn pattern_errors(patterns: Seq<Seq<char>>, matched: Seq<bool>) -> Seq<Seq<char>>
    decreases patterns.len(),
{
    if patterns.len() == 0 {
        Seq::empty()
    } else {
        let n = patterns.len() - 1;
        pattern_errors(patterns.take(n), matched.take(n)) + if matched[n] {
            Seq::empty()
        } else {
            seq![pattern_error(patterns[n])]
        }
    }
}

/// An error when the program of `bin` is a path to a missing file.
pub open spec fn bin_errors(dir: Seq<char>, bin: Option<Seq<char>>, found: bool) -> Seq<Seq<char>> {
    match bin {
        Some(b) => match spec_bin_target(dir, b) {
            Some(full) => if found {
                Seq::empty()
            } else {
                seq![bin_error(spec_bin_program(b), full)]
            },
            None => Seq::empty(),
        },
        None => Seq::empty(),
    }
}

/// An error when the declared hero image is not a file.
pub open spec fn hero_errors(dir: Seq<char>, hero: Option<Seq<char>>, is_file: bool) -> Seq<
    Seq<char>,
> {
    match hero {
        Some(h) => if is_file {
            Seq::empty()
        } else {
            seq![hero_missing_error(h, spec_join(dir, h))]
        },
        None => Seq::empty(),
    }
}

/// Warnings about an existing hero image whose format or size is off.
pub open spec fn hero_warnings(
    dir: Seq<char>,
    hero: Option<Seq<char>>,
    is_file: bool,
    size: Option<u64>,
) -> Seq<Seq<char>> {
    match hero {
        Some(h) => if is_file {
            (if spec_hero_format_ok(spec_join(dir, h)) {
                Seq::empty()
            } else {
                seq![hero_format_warning(h)]
            }) + match size {
                Some(n) => if n > RECOMMENDED_MAX_BYTES {
                    seq![hero_size_warning(h, n as nat)]
                } else {
                    Seq::empty()
                },
                None => Seq::empty(),
            }
        } else {
            Seq::empty()
        },
        None => Seq::empty(),
    }
}

/// All the errors, in the order in which they are reported.
pub open spec fn spec_include_errors(
    dir: Seq<char>,
    m: PluginManifest,
    checks: IncludeChecks,
) -> Seq<Seq<char>> {
    pattern_errors(strs(m.include_files@), checks.pattern_matched@) + bin_errors(
        dir,
        opt_view(m.bin),
        checks.bin_found,
    ) + hero_errors(dir, opt_view(m.hero_image), checks.hero_is_file)
}

fn quoted(prefix: &str, item: &str, suffix: &str) -> (r: String)
    ensures
        r@ == prefix@ + item@ + suffix@,
{
    let mut s = prefix.to_owned();
    s.append(item);
    s.append(suffix);
    s
}

proof fn lemma_pattern_errors_empty(patterns: Seq<Seq<char>>, matched: Seq<bool>)
    requires
        patterns.len() <= matched.len(),
    ensures
        pattern_errors(patterns, matched).len() == 0 <==> forall|i: int|
            0 <= i < patterns.len() ==> #[trigger] matched[i],
    decreases patterns.len(),
{
    if patterns.len() > 0 {
        let n = patterns.len() - 1;
        lemma_pattern_errors_empty(patterns.take(n), matched.take(n));
        if pattern_errors(patterns, matched).len() == 0 {
            assert forall|i: int| 0 <= i < patterns.len() implies #[trigger] matched[i] by {
                if i < n {
                    assert(matched.take(n)[i] == matched[i]);
                }
            }
        } else {
            if forall|i: int| 0 <= i < patterns.len() ==> #[trigger] matched[i] {
                assert(matched[n]);
                assert forall|i: int| 0 <= i < n implies #[trigger] matched.take(n)[i] by {
                    assert(matched[i]);
                }
            }
        }
    }
}

/// Checks the files that a manifest declares: every `include_files` pattern
/// must match a file, a `bin` program given as a path must exist, and a
/// declared hero image must exist. The hero image's format and size are
/// only recommendations and give warnings. Packaging is refused exactly
/// when some declared file is missing.
pub fn validate_includes(dir: &str, manifest: &PluginManifest, checks: &IncludeChecks) -> (r:
    IncludeReport)
    requires
        checks.pattern_matched.len() == manifest.include_files.len(),
    ensures
        strs(r.errors@) == spec_include_errors(dir@, *manifest, *checks),
        strs(r.warnings@) == hero_warnings(
            dir@,
            opt_view(manifest.hero_image),
            checks.hero_is_file,
            checks.hero_size,
        ),
        r.errors.len() == 0 <==> {
            &&& forall|i: int|
                0 <= i < checks.pattern_matched.len() ==> #[trigger] checks.pattern_matched@[i]
            &&& bin_errors(dir@, opt_view(manifest.bin), checks.bin_found).len() == 0
            &&& hero_errors(dir@, opt_view(manifest.hero_image), checks.hero_is_file).len() == 0
        },
{
    let mut errors: Vec<String> = Vec::new();
    let ghost patterns = strs(manifest.include_files@);
    let ghost matched = checks.pattern_matched@;
    let n = manifest.include_files.len();
    let mut i: usize = 0;
    while i < n
        invariant
            n == manifest.include_files.len(),
            n == checks.pattern_matched.len(),
            patterns == strs(manifest.include_files@),
            matched == checks.pattern_matched@,
            i <= n,
            strs(errors@) == pattern_errors(patterns.take(i as int), matched.take(i as int)),
        decreases n - i,
    {
        let ghost before = errors@;
        assert(patterns.take(i + 1).take(i as int) =~= patterns.take(i as int));
        assert(matched.take(i + 1).take(i as int) =~= matched.take(i as int));
        if !checks.pattern_matched[i] {
            let msg = quoted(
                "include_files pattern \"",
                manifest.include_files[i].as_str(),
                "\" matched no files",
            );
            errors.push(msg);
            assert(strs(errors@) =~= strs(before) + seq![pattern_error(patterns[i as int])]);
        } else {
            assert(strs(errors@) =~= strs(before) + Seq::<Seq<char>>::empty());
        }
        i = i + 1;
    }
    assert(patterns.take(n as int) =~= patterns);
    assert(matched.take(n as int) =~= matched);
    let ghost after_patterns = errors@;
    if let Some(bin) = &manifest.bin {
        if let Some(full) = bin_target(dir, bin.as_str()) {
            if !checks.bin_found {
                let mut msg = quoted("bin program \"", bin_program(bin.as_str()), "\" does not exist (looked for ");
                msg.append(full.as_str());
                msg.append(")");
                errors.push(msg);
            }
        }
    }
    assert(strs(errors@) =~= strs(after_patterns) + bin_errors(
        dir@,
        opt_view(manifest.bin),
        checks.bin_found,
    ));
    let ghost after_bin = errors@;
    let mut warnings: Vec<String> = Vec::new();
    if let Some(hero) = &manifest.hero_image {
        let full = join_path(dir, hero.as_str());
        if !checks.hero_is_file {
            let mut msg = quoted("hero_image \"", hero.as_str(), "\" does not exist (looked for ");
            msg.append(full.as_str());
            msg.append(")");
            errors.push(msg);
        } else {
            if !hero_format_ok(full.as_str()) {
                warnings.push(
                    quoted(
                        "hero_image \"",
                        hero.as_str(),
                        "\" has an unexpected format; recommended: PNG, JPG, WebP, SVG",
                    ),
                );
            }
            let ghost after_format = warnings@;
            if let Some(size) = checks.hero_size {
                if size > RECOMMENDED_MAX_BYTES {
                    let mut msg = quoted("hero_image \"", hero.as_str(), "\" is ");
                    msg.append(decimal(size / 1024).as_str());
                    msg.append(" KB, over the recommended ");
                    msg.append(decimal(RECOMMENDED_MAX_BYTES / 1024).as_str());
                    msg.append(" KB cap");
                    warnings.push(msg);
                }
            }
            assert(strs(warnings@) =~= strs(after_format) + match checks.hero_size {
                Some(n) => if n > RECOMMENDED_MAX_BYTES {
                    seq![hero_size_warning(hero@, n as nat)]
                } else {
                    Seq::empty()
                },
                None => Seq::empty(),
            });
        }
    }
    assert(strs(errors@) =~= strs(after_bin) + hero_errors(
        dir@,
        opt_view(manifest.hero_image),
        checks.hero_is_file,
    ));
    assert(strs(warnings@) =~= hero_warnings(
        dir@,
        opt_view(manifest.hero_image),
        checks.hero_is_file,
        checks.hero_size,
    ));
    proof {
        lemma_pattern_errors_empty(patterns, matched);
    }
    IncludeReport { errors, warnings }
}

/// A path that an `include_files` pattern matched, made canonical.
pub struct GlobMatch {
    pub path: String,
    pub is_dir: bool,
}

/// What the file system said about the files that go into an archive.
pub struct ArchiveFacts {
    /// The canonical matches of all `include_files` patterns, pattern by
    /// pattern, in the order the patterns list them.
    pub matches: Vec<GlobMatch>,
    /// Whether the plugin directory has a `readme.md`.
    pub readme_exists: bool,
    /// Whether the declared hero image is a file.
    pub hero_is_file: bool,
    /// The hero image's canonical path, when it could be found.
    pub hero_canonical: Option<String>,
}

/// A file to put into the archive, and the name it gets there.
pub struct ArchiveEntry {
    pub source: String,
    pub name: String,
}

pub open spec fn entry_view(e: ArchiveEntry) -> (Seq<char>, Seq<char>) {
    (e.source@, e.name@)
}

pub open spec fn entries_view(v: Seq<ArchiveEntry>) -> Seq<(Seq<char>, Seq<char>)> {
    v.map_values(|e: ArchiveEntry| entry_view(e))
}

/// The archive entries of the matched files: each file that is not a
/// directory, named by its path relative to the plugin directory; the first
/// match outside the plugin directory makes the plan fail.
pub open spec fn glob_entries(ms: Seq<GlobMatch>, dir: Seq<char>) -> Result<
    Seq<(Seq<char>, Seq<char>)>,
    Seq<char>,
>
    decreases ms.len(),
{
    if ms.len() == 0 {
        Ok(Seq::empty())
    } else {
        let n = ms.len() - 1;
        match glob_entries(ms.take(n), dir) {
            Err(p) => Err(p),
            Ok(es) => {
                let m = ms[n];
                if m.is_dir {
                    Ok(es)
                } else {
                    match std_strip_prefix(m.path@, dir) {
                        Some(rel) => Ok(es.push((m.path@, rel))),
                        None => Err(m.path@),
                    }
                }
            },
        }
    }
}

/// Whether some match (file or directory) has the canonical path `c`.
pub open spec fn covered_by_matches(ms: Seq<GlobMatch>, c: Seq<char>) -> bool {
    exists|i: int| 0 <= i < ms.len() && (#[trigger] ms[i]).path@ == c
}

/// Whether the hero image gets an entry of its own: it is a file that no
/// match already puts into the archive.
pub open spec fn hero_shipped_separately(
    hero: Option<Seq<char>>,
    hero_is_file: bool,
    hero_canonical: Option<Seq<char>>,
    ms: Seq<GlobMatch>,
) -> bool {
    &&& hero is Some
    &&& hero_is_file
    &&& !(hero_canonical matches Some(c) && covered_by_matches(ms, c))
}

/// The entries after the matched files: `plugin.json`, the readme when
/// there is one, and the hero image at its declared path unless a match
/// already ships it.
pub open spec fn fixed_entries(dir: Seq<char>, m: PluginManifest, f: ArchiveFacts) -> Seq<
    (Seq<char>, Seq<char>),
> {
    seq![(spec_join(dir, "plugin.json"@), "plugin.json"@)] + (if f.readme_exists {
        seq![(spec_join(dir, "readme.md"@), "readme.md"@)]
    } else {
        Seq::empty()
    }) + (if hero_shipped_separately(
        opt_view(m.hero_image),
        f.hero_is_file,
        opt_view(f.hero_canonical),
        f.matches@,
    ) {
        seq![(spec_join(dir, opt_view(m.hero_image)->0), opt_view(m.hero_image)->0)]
    } else {
        Seq::empty()
    })
}

/// The whole archive, in the order the entries are written.
pub open spec fn spec_archive_plan(dir: Seq<char>, m: PluginManifest, f: ArchiveFacts) -> Result<
    Seq<(Seq<char>, Seq<char>)>,
    Seq<char>,
> {
    match glob_entries(f.matches@, dir) {
        Err(p) => Err(p),
        Ok(es) => Ok(es + fixed_entries(dir, m, f)),
    }
}

proof fn lemma_glob_entries_failure_stays(ms: Seq<GlobMatch>, dir: Seq<char>, k: int)
    requires
        0 <= k <= ms.len(),
        glob_entries(ms.take(k), dir) is Err,
    ensures
        glob_entries(ms, dir) == glob_entries(ms.take(k), dir),
    decreases ms.len() - k,
{
    if k == ms.len() {
        assert(ms.take(k) =~= ms);
    } else {
        let n = ms.len() - 1;
        assert(ms.take(n).take(k) =~= ms.take(k));
        lemma_glob_entries_failure_stays(ms.take(n), dir, k);
    }
}

fn entry(source: String, name: String) -> (r: ArchiveEntry)
    ensures
        r.source == source,
        r.name == name,
{
    ArchiveEntry { source, name }
}

/// Lists the files of a plugin's archive and their names in it: the
/// matched files, `plugin.json`, the readme if any, and the hero image when
/// no match already ships it. Fails with the first matched file that lies
/// outside the plugin directory.
pub fn archive_plan(dir: &str, manifest: &PluginManifest, facts: &ArchiveFacts) -> (r: Result<
    Vec<ArchiveEntry>,
    String,
>)
    ensures
        match r {
            Ok(v) => spec_archive_plan(dir@, *manifest, *facts) == Ok::<
                Seq<(Seq<char>, Seq<char>)>,
                Seq<char>,
            >(entries_view(v@)),
            Err(p) => spec_archive_plan(dir@, *manifest, *facts) == Err::<
                Seq<(Seq<char>, Seq<char>)>,
                Seq<char>,
            >(p@),
        },
{
    let ms = &facts.matches;
    let n = ms.len();
    let mut out: Vec<ArchiveEntry> = Vec::new();
    let mut i: usize = 0;
    assert(entries_view(out@) =~= Seq::empty());
    assert(ms@.take(0) =~= Seq::<GlobMatch>::empty());
    while i < n
        invariant
            n == ms.len(),
            ms == &facts.matches,
            i <= n,
            glob_entries(ms@.take(i as int), dir@) == Ok::<
                Seq<(Seq<char>, Seq<char>)>,
                Seq<char>,
            >(entries_view(out@)),
        decreases n - i,
    {
        assert(ms@.take(i + 1).take(i as int) =~= ms@.take(i as int));
        assert(ms@.take(i + 1)[i as int] == ms@[i as int]);
        let m = &ms[i];
        if !m.is_dir {
            match strip_path_prefix(m.path.as_str(), dir) {
                Some(rel) => {
                    let ghost before = out@;
                    out.push(entry(m.path.clone(), rel));
                    assert(entries_view(out@) =~= entries_view(before).push(
                        (m.path@, std_strip_prefix(m.path@, dir@)->0),
                    ));
                },
                None => {
                    proof {
                        lemma_glob_entries_failure_stays(ms@, dir@, i + 1);
                    }
                    return Err(m.path.clone());
                },
            }
        }
        i = i + 1;
    }
    assert(ms@.take(n as int) =~= ms@);
    let ghost globbed = out@;
    out.push(entry(join_path(dir, "plugin.json"), "plugin.json".to_owned()));
    if facts.readme_exists {
        out.push(entry(join_path(dir, "readme.md"), "readme.md".to_owned()));
    }
    if let Some(hero) = &manifest.hero_image {
        if facts.hero_is_file {
            let mut covered = false;
            if let Some(c) = &facts.hero_canonical {
                let mut k: usize = 0;
                while k < n
                    invariant
                        n == ms.len(),
                        ms == &facts.matches,
                        k <= n,
                        covered <==> exists|j: int| 0 <= j < k && (#[trigger] ms@[j]).path@ == c@,
                    decreases n - k,
                {
                    if ms[k].path == *c {
                        covered = true;
                    }
                    k = k + 1;
                }
            }
            if !covered {
                out.push(entry(join_path(dir, hero.as_str()), hero.clone()));
            }
        }
    }
    assert(entries_view(out@) =~= entries_view(globbed) + fixed_entries(dir@, *manifest, *facts));
    Ok(out)
}

/// The archive's name is the manifest's name verbatim, a `-`, the version
/// verbatim and `.tar.gz`.
pub proof fn archive_name_parts(name: Seq<char>, version: Seq<char>)
    ensures
        spec_archive_name(name, version).len() == name.len() + version.len() + 8,
        spec_archive_name(name, version).subrange(0, name.len() as int) == name,
        spec_archive_name(name, version)[name.len() as int] == '-',
        spec_archive_name(name, version).subrange(
            name.len() as int + 1,
            name.len() as int + 1 + version.len(),
        ) == version,
        spec_archive_name(name, version).subrange(
            name.len() as int + 1 + version.len(),
            name.len() as int + version.len() + 8,
        ) == seq!['.', 't', 'a', 'r', '.', 'g', 'z'],
{
    reveal_strlit("-");
    reveal_strlit(".tar.gz");
    let a = spec_archive_name(name, version);
    assert(a.subrange(0, name.len() as int) =~= name);
    assert(a.subrange(name.len() as int + 1, name.len() as int + 1 + version.len()) =~= version);
    assert(a.subrange(name.len() as int + 1 + version.len(), name.len() as int + version.len() + 8) =~= seq![
        '.',
        't',
        'a',
        'r',
        '.',
        'g',
        'z',
    ]);
}

/// A `bin` program that holds a `/` anywhere or starts with `.` must exist
/// at the plugin directory joined with the program without its leading
/// `./`; any other program is a bare command and is not looked for. When
/// the program's file is missing, packaging is refused.
pub proof fn bin_program_target(dir: Seq<char>, bin: Seq<char>, found: bool)
    ensures
        ({
            let p = spec_bin_program(bin);
            &&& (p.contains('/') || (p.len() > 0 && p[0] == '.')) ==> spec_bin_target(dir, bin)
                == Some(spec_join(dir, trim_dot_slash(p)))
            &&& !(p.contains('/') || (p.len() > 0 && p[0] == '.')) ==> spec_bin_target(
                dir,
                bin,
            ) is None
            &&& (p.contains('/') || (p.len() > 0 && p[0] == '.')) && !found ==> bin_errors(
                dir,
                Some(bin),
                found,
            ).len() == 1
        }),
{
}

/// The hero image is shipped once: when a match at any position already
/// has its canonical path, the archive holds only the matched files,
/// `plugin.json` and the readme; when no match has it, the hero image is
/// added once more, last, at its declared path.
pub proof fn archive_ships_hero_once(dir: Seq<char>, m: PluginManifest, f: ArchiveFacts, i: int)
    requires
        glob_entries(f.matches@, dir) is Ok,
        m.hero_image is Some,
        f.hero_is_file,
        f.hero_canonical is Some,
    ensures
        ({
            let g = glob_entries(f.matches@, dir)->Ok_0;
            let es = spec_archive_plan(dir, m, f)->Ok_0;
            let c = f.hero_canonical->0@;
            let h = m.hero_image->0@;
            let extra: int = if f.readme_exists {
                2
            } else {
                1
            };
            &&& spec_archive_plan(dir, m, f) is Ok
            &&& es.subrange(0, g.len() as int) == g
            &&& (0 <= i < f.matches.len() && f.matches@[i].path@ == c) ==> es.len() == g.len()
                + extra
            &&& (forall|j: int| 0 <= j < f.matches.len() ==> f.matches@[j].path@ != c) ==> (
            es.len() == g.len() + extra + 1 && es.last() == (spec_join(dir, h), h))
        }),
{
    let g = glob_entries(f.matches@, dir)->Ok_0;
    let es = spec_archive_plan(dir, m, f)->Ok_0;
    assert(es.subrange(0, g.len() as int) =~= g);
    let c = f.hero_canonical->0@;
    if 0 <= i < f.matches.len() && f.matches@[i].path@ == c {
        assert(covered_by_matches(f.matches@, c));
    }
}

} // verus!
