use plugin_cli::package::{
    archive_plan, bin_program, bin_target, hero_format_ok, path_program, trim_leading_dot_slash,
    validate_includes, white_space, ArchiveFacts, GlobMatch, IncludeChecks, PluginManifest,
};

fn manifest(patterns: &[&str], bin: Option<&str>, hero: Option<&str>) -> PluginManifest {
    PluginManifest {
        name: "weather".to_string(),
        version: "1.2.0".to_string(),
        include_files: patterns.iter().map(|s| s.to_string()).collect(),
        bin: bin.map(|s| s.to_string()),
        hero_image: hero.map(|s| s.to_string()),
    }
}

#[test]
fn archive_name_is_name_dash_version() {
    assert_eq!(manifest(&[], None, None).archive_name(), "weather-1.2.0.tar.gz");
}

#[test]
fn bin_program_is_first_word() {
    assert_eq!(bin_program("./bin/bun run index.js"), "./bin/bun");
    assert_eq!(bin_program("  \t node  server.js"), "node");
    assert_eq!(bin_program("server"), "server");
    assert_eq!(bin_program("   "), "   ");
    assert_eq!(bin_program(""), "");
    assert_eq!(bin_program("\u{3000}deno\u{2003}run"), "deno");
}

#[test]
fn bin_program_matches_split_whitespace() {
    for s in ["a b", " x\ny ", "\u{85}z", "q\u{a0}r", "\u{200b}w v", "", "  "] {
        assert_eq!(bin_program(s), s.split_whitespace().next().unwrap_or(s), "{s:?}");
    }
}

#[test]
fn white_space_matches_std() {
    for u in 0u32..0x3100 {
        if let Some(c) = char::from_u32(u) {
            assert_eq!(white_space(c), c.is_whitespace(), "{u:#x}");
        }
    }
}

#[test]
fn path_programs() {
    assert!(path_program("./bin/bun"));
    assert!(path_program(".hidden"));
    assert!(path_program("bin/run"));
    assert!(!path_program("node"));
    assert!(!path_program(""));
}

#[test]
fn leading_dot_slashes_are_trimmed() {
    assert_eq!(trim_leading_dot_slash("./././bin/x"), "bin/x");
    assert_eq!(trim_leading_dot_slash("../x"), "../x");
    assert_eq!(trim_leading_dot_slash(".x"), ".x");
}

#[test]
fn bin_target_only_for_path_programs() {
    assert_eq!(
        bin_target("/work/p", "./bin/bun run index.js"),
        Some("/work/p/bin/bun".to_string())
    );
    assert_eq!(bin_target("/work/p", "node index.js"), None);
    assert_eq!(bin_target("/work/p", "/usr/bin/env node"), Some("/usr/bin/env".to_string()));
}

#[test]
fn hero_formats() {
    assert!(hero_format_ok("/p/hero.png"));
    assert!(hero_format_ok("/p/hero.JPEG"));
    assert!(hero_format_ok("/p/hero.Svg"));
    assert!(hero_format_ok("/p/hero.webp"));
    assert!(!hero_format_ok("/p/hero.gif"));
    assert!(!hero_format_ok("/p/hero"));
    assert!(!hero_format_ok("/p/.png"));
}

fn checks(matched: &[bool], bin_found: bool, hero_is_file: bool, size: Option<u64>) -> IncludeChecks {
    IncludeChecks {
        pattern_matched: matched.to_vec(),
        bin_found,
        hero_is_file,
        hero_size: size,
    }
}

#[test]
fn all_declared_files_present() {
    let m = manifest(&["dist/**"], Some("./bin/bun run"), Some("hero.png"));
    let r = validate_includes("/p", &m, &checks(&[true], true, true, Some(1000)));
    assert!(r.errors.is_empty());
    assert!(r.warnings.is_empty());
}

#[test]
fn every_missing_file_is_an_error() {
    let m = manifest(&["dist/**", "assets/*"], Some("./bin/bun run"), Some("hero.png"));
    let r = validate_includes("/p", &m, &checks(&[false, true], false, false, None));
    assert_eq!(
        r.errors,
        vec![
            "include_files pattern \"dist/**\" matched no files".to_string(),
            "bin program \"./bin/bun\" does not exist (looked for /p/bin/bun)".to_string(),
            "hero_image \"hero.png\" does not exist (looked for /p/hero.png)".to_string(),
        ]
    );
    assert!(r.warnings.is_empty());
}

#[test]
fn bare_command_is_never_checked() {
    let m = manifest(&[], Some("node server.js"), None);
    let r = validate_includes("/p", &m, &checks(&[], false, false, None));
    assert!(r.errors.is_empty());
}

#[test]
fn hero_format_and_size_only_warn() {
    let m = manifest(&[], None, Some("img/hero.gif"));
    let r = validate_includes("/p", &m, &checks(&[], false, true, Some(600 * 1024)));
    assert!(r.errors.is_empty());
    assert_eq!(
        r.warnings,
        vec![
            "hero_image \"img/hero.gif\" has an unexpected format; recommended: PNG, JPG, WebP, SVG"
                .to_string(),
            "hero_image \"img/hero.gif\" is 600 KB, over the recommended 500 KB cap".to_string(),
        ]
    );
}

#[test]
fn hero_at_the_size_cap_is_fine() {
    let m = manifest(&[], None, Some("hero.PNG"));
    let r = validate_includes("/p", &m, &checks(&[], false, true, Some(500 * 1024)));
    assert!(r.warnings.is_empty());
    let r = validate_includes("/p", &m, &checks(&[], false, true, Some(500 * 1024 + 1)));
    assert_eq!(
        r.warnings,
        vec!["hero_image \"hero.PNG\" is 500 KB, over the recommended 500 KB cap".to_string()]
    );
}

fn file(p: &str) -> GlobMatch {
    GlobMatch { path: p.to_string(), is_dir: false }
}

fn dir(p: &str) -> GlobMatch {
    GlobMatch { path: p.to_string(), is_dir: true }
}

fn names(plan: &[plugin_cli::package::ArchiveEntry]) -> Vec<(String, String)> {
    plan.iter().map(|e| (e.source.clone(), e.name.clone())).collect()
}

#[test]
fn archive_holds_matches_manifest_readme_and_hero() {
    let m = manifest(&["dist/*"], None, Some("img/hero.png"));
    let facts = ArchiveFacts {
        matches: vec![dir("/p/dist"), file("/p/dist/index.js")],
        readme_exists: true,
        hero_is_file: true,
        hero_canonical: Some("/p/img/hero.png".to_string()),
    };
    let plan = archive_plan("/p", &m, &facts).unwrap();
    assert_eq!(
        names(&plan),
        vec![
            ("/p/dist/index.js".to_string(), "dist/index.js".to_string()),
            ("/p/plugin.json".to_string(), "plugin.json".to_string()),
            ("/p/readme.md".to_string(), "readme.md".to_string()),
            ("/p/img/hero.png".to_string(), "img/hero.png".to_string()),
        ]
    );
}

#[test]
fn globbed_hero_is_not_added_twice() {
    let m = manifest(&["img/*"], None, Some("img/hero.png"));
    let facts = ArchiveFacts {
        matches: vec![file("/p/img/hero.png")],
        readme_exists: false,
        hero_is_file: true,
        hero_canonical: Some("/p/img/hero.png".to_string()),
    };
    let plan = archive_plan("/p", &m, &facts).unwrap();
    assert_eq!(
        names(&plan),
        vec![
            ("/p/img/hero.png".to_string(), "img/hero.png".to_string()),
            ("/p/plugin.json".to_string(), "plugin.json".to_string()),
        ]
    );
}

#[test]
fn missing_hero_is_not_shipped() {
    let m = manifest(&[], None, Some("hero.png"));
    let facts = ArchiveFacts {
        matches: vec![],
        readme_exists: false,
        hero_is_file: false,
        hero_canonical: None,
    };
    let plan = archive_plan("/p", &m, &facts).unwrap();
    assert_eq!(names(&plan), vec![("/p/plugin.json".to_string(), "plugin.json".to_string())]);
}

#[test]
fn match_outside_plugin_dir_fails() {
    let m = manifest(&["../x/*"], None, None);
    let facts = ArchiveFacts {
        matches: vec![file("/p/a.js"), file("/x/b.js"), file("/y/c.js")],
        readme_exists: false,
        hero_is_file: false,
        hero_canonical: None,
    };
    assert_eq!(archive_plan("/p", &m, &facts).err(), Some("/x/b.js".to_string()));
}
