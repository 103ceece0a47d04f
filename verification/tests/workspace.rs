use bracketlint::cli::{check, resolve_default_files, version, CheckCommand, Cli, Command, ExitStatus};
use bracketlint::diagnostics::{Diagnostic, DiagnosticKind, Diagnostics};
use bracketlint::logging::{LogLevel, LogStream, MessagingFormat};
use bracketlint::member::Member;
use bracketlint::resolver::{
    is_file_excluded, match_candidate_exclusion, merge_error, merge_files, searched_paths, unique,
    visit, walk_threads, Entry, PathParts, ResolvedFile, Resolver, SearchPath, Walk,
};
use bracketlint::settings::{
    add_parsed, contains_char, default_excludes, default_includes, FilePattern, FilePatternSet,
    FileResolverSettings, FixMode, LinterSettings, PatternError, Settings,
};
use bracketlint::workspace::{MemberId, WorkspaceMembers};
use globset::{Glob, GlobSetBuilder};

fn command(files: &[&str], fix: bool, diff: bool) -> CheckCommand {
    CheckCommand {
        files: files.iter().map(|file| file.to_string()).collect(),
        fix,
        no_fix: false,
        preview: false,
        no_preview: false,
        respect_gitignore: true,
        no_respect_gitignore: false,
        diff,
        show_fixes: false,
        no_show_fixes: false,
    }
}

#[test]
fn default_files_are_the_current_directory_or_the_standard_input() {
    assert_eq!(resolve_default_files(vec![], false), vec![".".to_string()]);
    assert_eq!(resolve_default_files(vec![], true), vec!["-".to_string()]);
    let given = vec!["a.html".to_string(), "b".to_string()];
    assert_eq!(resolve_default_files(given.clone(), false), given);
    assert_eq!(resolve_default_files(given.clone(), true), given);
}

#[test]
fn fix_mode_follows_the_flags() {
    assert_eq!(command(&[], false, false).fix_mode(), FixMode::Generate);
    assert_eq!(command(&[], true, false).fix_mode(), FixMode::Apply);
    assert_eq!(command(&[], false, true).fix_mode(), FixMode::Diff);
    assert_eq!(command(&[], true, true).fix_mode(), FixMode::Diff);
    assert_eq!(FixMode::default(), FixMode::Diff);
    let settings = LinterSettings { fix_mode: FixMode::Apply };
    assert_eq!(settings.fix_mode, FixMode::Apply);
}

#[test]
fn check_settles_files_and_fix_mode() {
    let plan = check(command(&[], true, false));
    assert_eq!(plan.files, vec![".".to_string()]);
    assert_eq!(plan.fix_mode, FixMode::Apply);
    assert!(plan.respect_gitignore);
    let mut args = command(&["templates", "x.twig"], false, false);
    args.respect_gitignore = false;
    let cli = Cli { command: Command::Check(args) };
    match cli.command {
        Command::Check(args) => {
            let plan = check(args);
            assert_eq!(plan.files, vec!["templates".to_string(), "x.twig".to_string()]);
            assert_eq!(plan.fix_mode, FixMode::Generate);
            assert!(!plan.respect_gitignore);
        }
        Command::Version => unreachable!(),
    }
}

#[test]
fn exit_codes_are_zero_one_and_two() {
    assert_eq!(ExitStatus::Success.code(), 0);
    assert_eq!(ExitStatus::Failure.code(), 1);
    assert_eq!(ExitStatus::Error.code(), 2);
}

#[test]
fn version_reads_as_text() {
    assert_eq!(version().to_string(), "0.1.0");
}

#[test]
fn messaging_formats_have_their_names() {
    assert_eq!(MessagingFormat::Json.to_string(), "json");
    assert_eq!(MessagingFormat::Normal.to_string(), "normal");
    assert_eq!(MessagingFormat::default(), MessagingFormat::Normal);
}

#[test]
fn log_levels_decide_label_and_stream() {
    let levels =
        [LogLevel::Error, LogLevel::Warn, LogLevel::Info, LogLevel::Debug, LogLevel::Trace];
    let labels: Vec<&str> = levels.iter().map(|level| level.label()).collect();
    assert_eq!(labels, vec!["error", "warn", "info", "debug", "trace"]);
    let enabled: Vec<bool> = levels.iter().map(|level| level.enabled()).collect();
    assert_eq!(enabled, vec![true, true, true, true, false]);
    assert_eq!(LogLevel::Error.stream(), LogStream::Error);
    assert_eq!(LogLevel::Warn.stream(), LogStream::Output);
    assert_eq!(LogLevel::Debug.stream(), LogStream::Output);
}

#[test]
fn diagnostics_start_empty() {
    let mut diagnostics = Diagnostics::default();
    assert!(diagnostics.0.is_empty());
    diagnostics.0.push(Diagnostic { kind: DiagnosticKind::Warning });
    assert!(matches!(diagnostics.0[0].kind, DiagnosticKind::Warning));
}

#[test]
fn a_new_member_is_not_parsed() {
    let member = Member::new("/work/a.html".to_string(), "{{ a }}".to_string());
    assert_eq!(member.path, "/work/a.html");
    assert_eq!(member.contents, "{{ a }}");
    assert!(member.document.is_none());
}

#[test]
fn resolved_files_know_their_path_and_origin() {
    let root = ResolvedFile::Root("a/b.html".to_string());
    let nested = ResolvedFile::Nested("a/c.twig".to_string());
    assert!(root.is_root());
    assert!(!nested.is_root());
    assert_eq!(root.path(), "a/b.html");
    assert_eq!(nested.path(), "a/c.twig");
    assert_eq!(root.into_path(), "a/b.html");
    assert_eq!(nested.into_path(), "a/c.twig");
}

fn set_of(patterns: Vec<FilePattern>) -> FilePatternSet {
    match FilePatternSet::try_from_iter(patterns, '/') {
        Ok(set) => set,
        Err(_) => panic!("the patterns are valid"),
    }
}

fn user(pattern: &str, absolute: &str) -> FilePattern {
    FilePattern::User(pattern.to_string(), absolute.to_string())
}

#[test]
fn patterns_add_their_globs_to_a_builder() {
    let mut builder = GlobSetBuilder::new();
    assert!(FilePattern::Builtin("*.html").add_to(&mut builder, '/').is_ok());
    assert_eq!(builder.build().unwrap().len(), 1);
    assert!(user("build", "/work/build").add_to(&mut builder, '/').is_ok());
    assert_eq!(builder.build().unwrap().len(), 3);
    assert!(user("out/build", "/work/out/build").add_to(&mut builder, '/').is_ok());
    assert_eq!(builder.build().unwrap().len(), 4);
    assert!(user("out/build", "/work/out/build").add_to(&mut builder, '\\').is_ok());
    let set = builder.build().unwrap();
    assert_eq!(set.len(), 6);
    assert!(set.is_match("index.html"));
    assert!(set.is_match("/work/build"));
    assert!(set.is_match("build"));
    assert!(set.is_match("/work/out/build"));
    assert!(set.is_match("out/build"));
    assert!(!set.is_match("index.twig"));
    assert!(contains_char("a/b", '/'));
    assert!(!contains_char("ab", '/'));
    assert!(!contains_char("", '/'));
    assert!(contains_char("héllo/", '/'));
}

#[test]
fn a_glob_that_does_not_parse_ends_the_adding() {
    let mut builder = GlobSetBuilder::new();
    let broken = user("a[", "/work/ok");
    assert!(matches!(broken.add_to(&mut builder, '/'), Err(PatternError::Glob(_))));
    assert_eq!(builder.build().unwrap().len(), 1);
    let broken = FilePattern::Builtin("{a,b");
    assert!(matches!(broken.add_to(&mut builder, '/'), Err(PatternError::Glob(_))));
    assert_eq!(builder.build().unwrap().len(), 1);
    assert!(matches!(add_parsed(&mut builder, Glob::new("a[")), Err(PatternError::Glob(_))));
    assert!(add_parsed(&mut builder, Glob::new("*.twig")).is_ok());
    let set = builder.build().unwrap();
    assert_eq!(set.len(), 2);
    assert!(set.is_match("x.twig"));
    assert!(matches!(
        FilePatternSet::try_from_iter(vec![FilePattern::Builtin("*.html"), user("a/[", "/x")], '/'),
        Ok(_)
    ));
    assert!(matches!(
        FilePatternSet::try_from_iter(vec![FilePattern::Builtin("*.html"), user("a[", "/x")], '/'),
        Err(PatternError::Glob(_))
    ));
    assert!(matches!(
        FilePatternSet::try_from_iter(vec![FilePattern::Builtin("*.html"), user("ok", "/x[")], '/'),
        Err(PatternError::Glob(_))
    ));
}

#[test]
fn a_pattern_set_matches_what_its_globs_match() {
    let set = set_of(vec![FilePattern::Builtin("*.html"), user("build", "/work/build")]);
    assert!(!set.is_empty());
    assert_eq!(set.len(), 3);
    assert!(set.is_match("/work/site/index.html"));
    assert!(set.is_match("build"));
    assert!(set.is_match("/work/build"));
    assert!(!set.is_match("/work/site/index.twig"));
    let none = FilePatternSet::default();
    assert!(none.is_empty());
    assert_eq!(none.len(), 0);
    assert!(!none.is_match("/work/site/index.html"));
    assert!(!none.is_match(""));
    assert!(set_of(vec![]).is_empty());
}

#[test]
fn built_in_patterns_are_complete() {
    let excludes = default_excludes();
    assert_eq!(excludes.len(), 25);
    assert_eq!(excludes[0], FilePattern::Builtin(".bzr"));
    assert_eq!(excludes[3], FilePattern::Builtin(".git"));
    assert_eq!(excludes[22], FilePattern::Builtin("node_modules"));
    assert_eq!(excludes[24], FilePattern::Builtin("venv"));
    assert_eq!(
        default_includes(),
        vec![
            FilePattern::Builtin("*.html"),
            FilePattern::Builtin("*.jinja"),
            FilePattern::Builtin("*.twig"),
        ]
    );
}

fn settings(force_exclude: bool, user_exclude: Vec<FilePattern>) -> Settings {
    let mut settings = match Settings::new(true, FixMode::Generate, '/') {
        Ok(settings) => settings,
        Err(_) => panic!("the built-in patterns are valid"),
    };
    settings.file_resolver.force_exclude = force_exclude;
    settings.file_resolver.user_exclude = set_of(user_exclude);
    settings
}

#[test]
fn settings_start_from_the_built_in_patterns() {
    let resolver_settings = match FileResolverSettings::new('/') {
        Ok(settings) => settings,
        Err(_) => panic!("the built-in patterns are valid"),
    };
    assert!(!resolver_settings.force_exclude);
    assert!(resolver_settings.user_exclude.is_empty());
    assert_eq!(resolver_settings.included.len(), 3);
    assert_eq!(resolver_settings.exclude.len(), 25);
    assert!(resolver_settings.included.is_match("a/b.jinja"));
    assert!(!resolver_settings.included.is_match("a/b.py"));
    assert!(resolver_settings.exclude.is_match("node_modules"));
    assert!(!resolver_settings.exclude.is_match("src"));
    let settings = settings(false, vec![]);
    assert!(settings.respect_gitignore);
    assert_eq!(settings.linter_settings.fix_mode, FixMode::Generate);
    let resolver = Resolver::new(&settings);
    assert!(resolver.respect_gitignore());
    assert!(!resolver.force_exclude());
    assert!(resolver.resolve("any/path").respect_gitignore);
}

#[test]
fn unique_keeps_first_occurrences_in_order() {
    let paths: Vec<String> =
        ["b", "a", "b", "c", "a", "d"].iter().map(|path| path.to_string()).collect();
    let expected: Vec<String> = ["b", "a", "c", "d"].iter().map(|path| path.to_string()).collect();
    assert_eq!(unique(paths), expected);
    assert_eq!(unique(vec![]), Vec::<String>::new());
    assert_eq!(unique(vec!["x".to_string(), "x".to_string()]), vec!["x".to_string()]);
}

#[test]
fn exclusion_needs_a_set_that_is_not_empty() {
    let set = set_of(vec![FilePattern::Builtin(".git"), user("tmp", "/work/tmp")]);
    assert!(match_candidate_exclusion("/work/.git", ".git", &set));
    assert!(match_candidate_exclusion("/work/tmp", "other", &set));
    assert!(match_candidate_exclusion("/else/tmp", "tmp", &set));
    assert!(!match_candidate_exclusion("/work/src", "src", &set));
    let none = FilePatternSet::default();
    assert!(!match_candidate_exclusion("/work/.git", ".git", &none));
}

fn parts(path: &str, file_name: Option<&str>) -> PathParts {
    PathParts { path: path.to_string(), file_name: file_name.map(|name| name.to_string()) }
}

fn ancestors(path: &str) -> Vec<PathParts> {
    let mut all = vec![];
    let mut rest = path;
    loop {
        match rest.rfind('/') {
            Some(0) if rest.len() == 1 => {
                all.push(parts("/", None));
                return all;
            }
            Some(at) => {
                all.push(parts(rest, Some(&rest[at + 1..])));
                rest = if at == 0 { "/" } else { &rest[..at] };
            }
            None => {
                all.push(parts(rest, Some(rest)));
                return all;
            }
        }
    }
}

#[test]
fn a_file_is_excluded_through_its_ancestors() {
    let settings = settings(false, vec![user("drafts", "/work/drafts")]);
    let resolver = Resolver::new(&settings);
    assert!(!is_file_excluded(&vec![], &resolver));
    assert!(!is_file_excluded(&ancestors("/work/site/index.html"), &resolver));
    assert!(is_file_excluded(&ancestors("/work/node_modules/pkg/index.html"), &resolver));
    assert!(is_file_excluded(&ancestors("/work/drafts/index.html"), &resolver));
    assert!(is_file_excluded(&ancestors("/else/drafts/index.html"), &resolver));
    assert!(is_file_excluded(&ancestors("/work/site/.git"), &resolver));
    assert!(!is_file_excluded(
        &vec![parts("/work/site", Some("site")), parts("/work/..", None), parts(".git", Some(".git"))],
        &resolver
    ));
    assert!(!is_file_excluded(&vec![parts(".git", None)], &resolver));
}

fn entry(path: &str, depth: usize, is_dir: bool) -> Result<Entry, &'static str> {
    let file_name = path.rsplit('/').next().filter(|name| !name.is_empty());
    Ok(Entry {
        path: path.to_string(),
        file_name: file_name.map(|name| name.to_string()),
        depth,
        is_dir,
    })
}

#[test]
fn the_search_decides_on_each_entry() {
    let settings = settings(false, vec![user("drafts", "/work/drafts")]);
    let resolver = Resolver::new(&settings);
    let mut found: Vec<Result<ResolvedFile, &'static str>> = vec![];
    assert_eq!(visit(&mut found, entry("notes.txt", 0, false), &resolver), Walk::Continue);
    assert_eq!(visit(&mut found, entry("node_modules", 0, true), &resolver), Walk::Continue);
    assert_eq!(visit(&mut found, entry("site/node_modules", 1, true), &resolver), Walk::Skip);
    assert_eq!(visit(&mut found, entry("site/.git", 2, false), &resolver), Walk::Skip);
    assert_eq!(visit(&mut found, entry("site/", 1, true), &resolver), Walk::Skip);
    assert_eq!(visit(&mut found, entry("site/pages", 1, true), &resolver), Walk::Continue);
    assert_eq!(visit(&mut found, entry("site/pages/a.html", 2, false), &resolver), Walk::Continue);
    assert_eq!(visit(&mut found, entry("site/pages/a.py", 2, false), &resolver), Walk::Continue);
    assert_eq!(visit(&mut found, entry("site/drafts", 1, true), &resolver), Walk::Continue);
    assert_eq!(visit(&mut found, Err("unreadable"), &resolver), Walk::Continue);
    assert_eq!(visit(&mut found, entry("site/b.twig", 1, false), &resolver), Walk::Continue);
    assert_eq!(
        found,
        vec![
            Ok(ResolvedFile::Root("notes.txt".to_string())),
            Ok(ResolvedFile::Nested("site/pages/a.html".to_string())),
            Err("unreadable"),
            Ok(ResolvedFile::Nested("site/b.twig".to_string())),
        ]
    );
}

fn search_path(path: &str) -> SearchPath {
    SearchPath { path: path.to_string(), ancestors: ancestors(path) }
}

#[test]
fn excluded_paths_are_searched_unless_exclusion_is_forced() {
    let paths =
        vec![search_path("/work/site"), search_path("/work/venv/lib"), search_path("/work/a.html")];
    let lax = settings(false, vec![]);
    assert_eq!(
        searched_paths(&paths, &Resolver::new(&lax)),
        vec!["/work/site".to_string(), "/work/venv/lib".to_string(), "/work/a.html".to_string()]
    );
    let strict = settings(true, vec![]);
    assert_eq!(
        searched_paths(&paths, &Resolver::new(&strict)),
        vec!["/work/site".to_string(), "/work/a.html".to_string()]
    );
    let stricter = settings(true, vec![user("site", "/work/site")]);
    assert_eq!(searched_paths(&paths, &Resolver::new(&stricter)), vec!["/work/a.html".to_string()]);
    assert_eq!(searched_paths(&vec![], &Resolver::new(&strict)), Vec::<String>::new());
}

#[test]
fn finds_of_workers_are_appended() {
    let mut files = vec![1, 2];
    let mut local = vec![3, 4, 5];
    merge_files(&mut files, &mut local);
    assert_eq!(files, vec![1, 2, 3, 4, 5]);
    assert!(local.is_empty());
    let mut none: Vec<i32> = vec![];
    merge_files(&mut none, &mut files);
    assert_eq!(none, vec![1, 2, 3, 4, 5]);
    assert_eq!(merge_error::<&str>(Ok(()), Ok(())), Ok(()));
    assert_eq!(merge_error(Ok(()), Err("late")), Err("late"));
    assert_eq!(merge_error(Err("first"), Err("late")), Err("first"));
    assert_eq!(merge_error(Err("first"), Ok(())), Err("first"));
}

#[test]
fn the_search_runs_on_twelve_workers_at_most() {
    assert_eq!(walk_threads(None), 1);
    assert_eq!(walk_threads(Some(4)), 4);
    assert_eq!(walk_threads(Some(12)), 12);
    assert_eq!(walk_threads(Some(64)), 12);
}

#[test]
fn members_are_found_by_identity_and_by_path() {
    let mut members = WorkspaceMembers::new();
    assert!(!members.is_full());
    assert!(members.get_member_by_id(MemberId(0)).is_none());
    assert!(members.get_member_by_path(&"a.html".to_string()).is_none());
    let a = members.add_member("a.html".to_string(), Member::new("/w/a.html".to_string(), "A".to_string()));
    let b = members.add_member("b.html".to_string(), Member::new("/w/b.html".to_string(), "B".to_string()));
    let again = members.add_member("a.html".to_string(), Member::new("/w/a.html".to_string(), "A2".to_string()));
    assert_eq!((a, b, again), (MemberId(0), MemberId(1), MemberId(2)));
    assert_eq!(members.get_member_by_id(a).map(|m| m.contents.as_str()), Some("A"));
    assert_eq!(members.get_member_by_id(b).map(|m| m.contents.as_str()), Some("B"));
    assert_eq!(members.get_member_by_id(again).map(|m| m.contents.as_str()), Some("A2"));
    assert!(members.get_member_by_id(MemberId(3)).is_none());
    let by_path = members.get_member_by_path(&"a.html".to_string());
    assert_eq!(by_path.map(|m| m.contents.as_str()), Some("A2"));
    let by_path = members.get_member_by_path(&"b.html".to_string());
    assert_eq!(by_path.map(|m| m.path.as_str()), Some("/w/b.html"));
    assert!(members.get_member_by_path(&"/w/a.html".to_string()).is_none());
}

#[test]
fn globs_beyond_the_size_limit_fail_to_build() {
    let huge = "?".repeat(600_000);
    let made = FilePatternSet::try_from_iter(vec![user("a/b", &huge)], '/');
    assert!(matches!(made, Err(PatternError::Build(_))));
    let mut builder = GlobSetBuilder::new();
    builder.add(Glob::new(&huge).unwrap());
    let made = FilePatternSet::from_built(vec![user("a/b", &huge)], builder.build());
    assert!(matches!(made, Err(PatternError::Build(_))));
}

#[test]
fn a_built_set_is_kept_with_its_patterns() {
    let mut builder = GlobSetBuilder::new();
    builder.add(Glob::new("*.twig").unwrap());
    let made = FilePatternSet::from_built(vec![FilePattern::Builtin("*.twig")], builder.build());
    let set = match made {
        Ok(set) => set,
        Err(_) => panic!("the set was built"),
    };
    assert_eq!(set.len(), 1);
    assert!(set.is_match("a/b.twig"));
    assert!(!set.is_match("a/b.html"));
    let none = FilePatternSet::try_from_iter(vec![], '/');
    assert!(matches!(none, Ok(_)));
    let none = FilePatternSet::from_built(vec![], GlobSetBuilder::new().build());
    assert!(matches!(&none, Ok(set) if set.is_empty()));
}
