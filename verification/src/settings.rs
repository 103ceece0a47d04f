//! Settings of a lint run: how fixes are handed on, and the patterns that
//! select the files to lint.

use vstd::prelude::*;
use globset::{Glob, GlobSet, GlobSetBuilder};

verus! {

/// `globset::Glob`: one parsed glob.
#[verifier::external_type_specification]
#[verifier::external_body]
pub struct ExGlob(globset::Glob);

/// `globset::GlobSetBuilder`: the globs that a set is to be built from.
#[verifier::external_type_specification]
#[verifier::external_body]
pub struct ExGlobSetBuilder(globset::GlobSetBuilder);

/// `globset::GlobSet`: globs compiled to be matched together.
#[verifier::external_type_specification]
#[verifier::external_body]
pub struct ExGlobSet(globset::GlobSet);

/// `globset::Error`: why a glob could not be parsed or a set not built.
#[verifier::external_type_specification]
#[verifier::external_body]
pub struct ExGlobError(globset::Error);

/// The text that a glob was parsed from.
pub uninterp spec fn glob_pattern(glob: Glob) -> Seq<char>;

/// The texts of the globs that were added to a builder, in the order in
/// which they were added.
pub uninterp spec fn builder_patterns(builder: GlobSetBuilder) -> Seq<Seq<char>>;

/// The number of globs of a set.
pub uninterp spec fn glob_set_len(set: GlobSet) -> nat;

/// The paths that a set of globs matches: those that at least one of its
/// globs matches.
pub uninterp spec fn glob_set_paths(set: GlobSet) -> Set<Seq<char>>;

/// `globset::Glob::new` parses a glob with the default options. The
/// contract claims of it that a glob that was parsed keeps the text it was
/// parsed from, which `Glob::glob` returns. It claims nothing of which
/// texts parse.
pub assume_specification[ globset::Glob::new ](glob: &str) -> (parsed: Result<globset::Glob, globset::Error>)
    ensures
        parsed matches Ok(made) ==> glob_pattern(made) == glob@,
;

/// `globset::GlobSetBuilder::new` makes a builder without patterns.
pub assume_specification[ globset::GlobSetBuilder::new ]() -> (builder: globset::GlobSetBuilder)
    ensures
        builder_patterns(builder) == Seq::<Seq<char>>::empty(),
;

/// `globset::GlobSetBuilder::add` appends the glob to the patterns of the
/// builder.
#[verifier::external_body]
fn builder_add(builder: &mut GlobSetBuilder, glob: Glob)
    ensures
        builder_patterns(*final(builder)) == builder_patterns(*old(builder)).push(
            glob_pattern(glob),
        ),
{
    builder.add(glob);
}

/// `globset::GlobSetBuilder::build` compiles the patterns of the builder
/// into a set. The contract claims of it that a set that was built has as
/// many globs as the builder has patterns, and that a builder without
/// patterns is built, into the empty set, without anything being compiled.
/// It claims nothing of which other builders can be built.
pub assume_specification[ globset::GlobSetBuilder::build ](
    builder: &globset::GlobSetBuilder,
) -> (built: Result<globset::GlobSet, globset::Error>)
    ensures
        built matches Ok(set) ==> glob_set_len(set) == builder_patterns(*builder).len(),
        builder_patterns(*builder).len() == 0 ==> built is Ok,
;

/// `globset::GlobSet::empty` makes the set without globs, which matches
/// nothing.
pub assume_specification[ globset::GlobSet::empty ]() -> (set: globset::GlobSet)
    ensures
        glob_set_len(set) == 0,
        glob_set_paths(set) == Set::<Seq<char>>::empty(),
;

/// `globset::GlobSet::is_empty` tells whether the set has no glob.
pub assume_specification[ globset::GlobSet::is_empty ](set: &globset::GlobSet) -> (empty: bool)
    ensures
        empty == (glob_set_len(*set) == 0),
;

/// `globset::GlobSet::is_match` tells whether any glob of the set matches
/// the path. A set without globs matches nothing.
#[verifier::external_body]
pub(crate) fn glob_set_is_match(set: &GlobSet, path: &str) -> (matched: bool)
    ensures
        matched == glob_set_paths(*set).contains(path@),
        glob_set_len(*set) == 0 ==> !matched,
{
    set.is_match(path)
}

/// How a fix for a lint finding is handed on: shown as a diff, written to
/// a new file, or applied to the file.
#[derive(Debug, Clone, Copy, PartialEq, Eq, Structural)]
pub enum FixMode {
    Diff,
    Generate,
    Apply,
}

impl Default for FixMode {
    fn default() -> (mode: FixMode)
        ensures
            mode == FixMode::Diff,
    {
        FixMode::Diff
    }
}

/// The settings of the linter proper.
pub struct LinterSettings {
    pub fix_mode: FixMode,
}

/// A pattern that selects files: one that is built in, or one of the
/// user's, which is held together with the absolute path that it stands
/// for.
#[derive(Debug, Clone, PartialEq, Eq)]
pub enum FilePattern {
    Builtin(&'static str),
    User(String, String),
}

/// Why a set of patterns could not be made.
pub enum PatternError {
    /// A glob could not be parsed.
    Glob(globset::Error),
    /// The globs could not be compiled into a set.
    Build(globset::Error),
}

impl FilePattern {
    /// The globs that the pattern stands for, in the order in which they
    /// are matched. A built-in pattern is one glob. A pattern of the user's
    /// gives the glob of its absolute path and, if the pattern itself holds
    /// no path separator, the pattern as a glob for base names.
    pub open spec fn spec_globs(self, separator: char) -> Seq<Seq<char>> {
        match self {
            FilePattern::Builtin(pattern) => seq![pattern@],
            FilePattern::User(pattern, absolute) => if pattern@.contains(separator) {
                seq![absolute@]
            } else {
                seq![absolute@, pattern@]
            },
        }
    }

    /// Whether adding the globs of this pattern takes the patterns of a
    /// builder from `before` to `after` with the outcome `added`: where all
    /// was added, `after` is `before` with the globs of the pattern; where
    /// a glob could not be parsed, `after` is `before` with those globs
    /// that stand before it.
    pub open spec fn adds(
        self,
        separator: char,
        before: Seq<Seq<char>>,
        after: Seq<Seq<char>>,
        added: Result<(), PatternError>,
    ) -> bool {
        match added {
            Ok(_) => after == before + self.spec_globs(separator),
            Err(PatternError::Glob(_)) => exists|count: int|
                0 <= count < self.spec_globs(separator).len() && after == before
                    + #[trigger] self.spec_globs(separator).take(count),
            Err(PatternError::Build(_)) => false,
        }
    }

    /// Adds the globs of the pattern to `builder`, where `separator` is
    /// the path separator of the platform. The first glob that cannot be
    /// parsed ends it.
    pub fn add_to(&self, builder: &mut GlobSetBuilder, separator: char) -> (added: Result<
        (),
        PatternError,
    >)
        ensures
            self.adds(
                separator,
                builder_patterns(*old(builder)),
                builder_patterns(*final(builder)),
                added,
            ),
    {
        let ghost before = builder_patterns(*builder);
        let ghost globs = self.spec_globs(separator);
        match self {
            FilePattern::Builtin(pattern) => {
                match add_parsed(builder, Glob::new(pattern)) {
                    Ok(_) => {
                        assert(builder_patterns(*builder) =~= before + globs);
                    },
                    Err(error) => {
                        assert(builder_patterns(*builder) =~= before + globs.take(0));
                        return Err(error);
                    },
                }
            },
            FilePattern::User(pattern, absolute) => {
                match add_parsed(builder, Glob::new(absolute.as_str())) {
                    Ok(_) => {},
                    Err(error) => {
                        assert(builder_patterns(*builder) =~= before + globs.take(0));
                        return Err(error);
                    },
                }
                if !contains_char(pattern.as_str(), separator) {
                    match add_parsed(builder, Glob::new(pattern.as_str())) {
                        Ok(_) => {
                            assert(builder_patterns(*builder) =~= before + globs);
                        },
                        Err(error) => {
                            assert(builder_patterns(*builder) =~= before + globs.take(1));
                            return Err(error);
                        },
                    }
                } else {
                    assert(builder_patterns(*builder) =~= before + globs);
                }
            },
        }
        Ok(())
    }
}

/// Adds a glob to `builder` if it was parsed, and hands the failure on if
/// it was not.
pub fn add_parsed(builder: &mut GlobSetBuilder, parsed: Result<Glob, globset::Error>) -> (added:
    Result<(), PatternError>)
    ensures
        match parsed {
            Ok(glob) => added is Ok && builder_patterns(*final(builder)) == builder_patterns(
                *old(builder),
            ).push(glob_pattern(glob)),
            Err(error) => added == Err::<(), PatternError>(PatternError::Glob(error))
                && builder_patterns(*final(builder)) == builder_patterns(*old(builder)),
        },
{
    match parsed {
        Ok(glob) => {
            builder_add(builder, glob);
            Ok(())
        },
        Err(error) => Err(PatternError::Glob(error)),
    }
}

/// Whether `text` holds the character `wanted`.
pub fn contains_char(text: &str, wanted: char) -> (found: bool)
    ensures
        found == text@.contains(wanted),
{
    for letter in letters: text.chars()
        invariant
            letters.seq() == text@,
            forall|i: int| 0 <= i < letters.index() ==> text@[i] != wanted,
    {
        if letter == wanted {
            return true;
        }
    }
    false
}

/// The names of the directories that are excluded unless the user says
/// otherwise.
pub open spec fn excluded_names() -> Seq<Seq<char>> {
    seq![
        ".bzr"@,
        ".direnv"@,
        ".eggs"@,
        ".git"@,
        ".git-rewrite"@,
        ".hg"@,
        ".ipynb_checkpoints"@,
        ".mypy_cache"@,
        ".nox"@,
        ".pants.d"@,
        ".pyenv"@,
        ".pytest_cache"@,
        ".pytype"@,
        ".ruff_cache"@,
        ".svn"@,
        ".tox"@,
        ".venv"@,
        ".vscode"@,
        "__pypackages__"@,
        "_build"@,
        "buck-out"@,
        "dist"@,
        "node_modules"@,
        "site-packages"@,
        "venv"@,
    ]
}

/// The globs of the files that are linted unless the user says otherwise.
pub open spec fn included_names() -> Seq<Seq<char>> {
    seq!["*.html"@, "*.jinja"@, "*.twig"@]
}

/// Whether `patterns` are the built-in patterns of `names`, in their
/// order.
pub open spec fn builtin_patterns(patterns: Seq<FilePattern>, names: Seq<Seq<char>>) -> bool {
    &&& patterns.len() == names.len()
    &&& forall|i: int|
        0 <= i < names.len() ==> (#[trigger] patterns[i] matches FilePattern::Builtin(pattern)
            && pattern@ == names[i])
}

/// The patterns that are excluded unless the user says otherwise.
pub fn default_excludes() -> (patterns: Vec<FilePattern>)
    ensures
        builtin_patterns(patterns@, excluded_names()),
{
    let mut patterns: Vec<FilePattern> = Vec::new();
    patterns.push(FilePattern::Builtin(".bzr"));
    patterns.push(FilePattern::Builtin(".direnv"));
    patterns.push(FilePattern::Builtin(".eggs"));
    patterns.push(FilePattern::Builtin(".git"));
    patterns.push(FilePattern::Builtin(".git-rewrite"));
    patterns.push(FilePattern::Builtin(".hg"));
    patterns.push(FilePattern::Builtin(".ipynb_checkpoints"));
    patterns.push(FilePattern::Builtin(".mypy_cache"));
    patterns.push(FilePattern::Builtin(".nox"));
    patterns.push(FilePattern::Builtin(".pants.d"));
    patterns.push(FilePattern::Builtin(".pyenv"));
    patterns.push(FilePattern::Builtin(".pytest_cache"));
    patterns.push(FilePattern::Builtin(".pytype"));
    patterns.push(FilePattern::Builtin(".ruff_cache"));
    patterns.push(FilePattern::Builtin(".svn"));
    patterns.push(FilePattern::Builtin(".tox"));
    patterns.push(FilePattern::Builtin(".venv"));
    patterns.push(FilePattern::Builtin(".vscode"));
    patterns.push(FilePattern::Builtin("__pypackages__"));
    patterns.push(FilePattern::Builtin("_build"));
    patterns.push(FilePattern::Builtin("buck-out"));
    patterns.push(FilePattern::Builtin("dist"));
    patterns.push(FilePattern::Builtin("node_modules"));
    patterns.push(FilePattern::Builtin("site-packages"));
    patterns.push(FilePattern::Builtin("venv"));
    patterns
}

/// The patterns of the files that are linted unless the user says
/// otherwise.
pub fn default_includes() -> (patterns: Vec<FilePattern>)
    ensures
        builtin_patterns(patterns@, included_names()),
{
    let mut patterns: Vec<FilePattern> = Vec::new();
    patterns.push(FilePattern::Builtin("*.html"));
    patterns.push(FilePattern::Builtin("*.jinja"));
    patterns.push(FilePattern::Builtin("*.twig"));
    patterns
}

/// The globs of a list of patterns: those of each pattern, in the order
/// of the list.
pub open spec fn all_globs(patterns: Seq<FilePattern>, separator: char) -> Seq<Seq<char>>
    decreases patterns.len(),
{
    if patterns.len() == 0 {
        Seq::empty()
    } else {
        all_globs(patterns.drop_last(), separator) + patterns.last().spec_globs(separator)
    }
}

/// A set of file patterns, compiled for matching.
pub struct FilePatternSet {
    set: GlobSet,
    _set_internals: Vec<FilePattern>,
}

impl FilePatternSet {
    /// The compiled globs of the set.
    pub closed spec fn globs(self) -> GlobSet {
        self.set
    }

    /// The patterns that the set was made from.
    pub closed spec fn patterns(self) -> Seq<FilePattern> {
        self._set_internals@
    }

    /// Whether the set matches `path`.
    pub open spec fn matches(self, path: Seq<char>) -> bool {
        glob_set_paths(self.globs()).contains(path)
    }

    /// The set of the given patterns, where `separator` is the path
    /// separator of the platform. It has one glob for each glob of each
    /// pattern.
    ///
    /// Whether the globs can be parsed and compiled is for the glob
    /// library to say, and the failure tells which of the two went wrong.
    /// Where there is no pattern, there is nothing for it to refuse: the
    /// empty set is made.
    pub fn try_from_iter(patterns: Vec<FilePattern>, separator: char) -> (made: Result<
        FilePatternSet,
        PatternError,
    >)
        ensures
            patterns@.len() == 0 ==> made is Ok,
            made matches Ok(set) ==> {
                &&& set.patterns() == patterns@
                &&& glob_set_len(set.globs()) == all_globs(patterns@, separator).len()
            },
    {
        let mut builder = GlobSetBuilder::new();
        let mut done: usize = 0;
        while done < patterns.len()
            invariant
                done <= patterns@.len(),
                builder_patterns(builder) == all_globs(patterns@.take(done as int), separator),
            decreases patterns@.len() - done,
        {
            proof {
                assert(patterns@.take(done + 1).drop_last() =~= patterns@.take(done as int));
            }
            match patterns[done].add_to(&mut builder, separator) {
                Ok(_) => {},
                Err(error) => {
                    return Err(error);
                },
            }
            done = done + 1;
        }
        assert(patterns@.take(done as int) =~= patterns@);
        FilePatternSet::from_built(patterns, builder.build())
    }

    /// The set of `patterns`, given what the glob library has made of
    /// their globs: the compiled set, or the failure to build it.
    pub fn from_built(patterns: Vec<FilePattern>, built: Result<GlobSet, globset::Error>) -> (made:
        Result<FilePatternSet, PatternError>)
        ensures
            match built {
                Ok(set) => made matches Ok(result) && result.patterns() == patterns@
                    && result.globs() == set,
                Err(error) => made matches Err(PatternError::Build(failure)) && failure == error,
            },
    {
        match built {
            Ok(set) => Ok(FilePatternSet { set, _set_internals: patterns }),
            Err(error) => Err(PatternError::Build(error)),
        }
    }

    /// Whether the set has no glob.
    pub fn is_empty(&self) -> (empty: bool)
        ensures
            empty == (glob_set_len(self.globs()) == 0),
    {
        self.set.is_empty()
    }

    /// Whether a glob of the set matches `path`.
    pub fn is_match(&self, path: &str) -> (matched: bool)
        ensures
            matched == self.matches(path@),
            glob_set_len(self.globs()) == 0 ==> !matched,
    {
        glob_set_is_match(&self.set, path)
    }
}

impl Default for FilePatternSet {
    fn default() -> (set: FilePatternSet)
        ensures
            set.patterns() == Seq::<FilePattern>::empty(),
            glob_set_len(set.globs()) == 0,
            forall|path: Seq<char>| !set.matches(path),
    {
        FilePatternSet { set: GlobSet::empty(), _set_internals: Vec::new() }
    }
}

impl core::ops::Deref for FilePatternSet {
    type Target = GlobSet;

    fn deref(&self) -> (set: &GlobSet)
        ensures
            *set == self.globs(),
    {
        &self.set
    }
}

/// The settings of the search for files.
pub struct FileResolverSettings {
    /// The files that are linted.
    pub included: FilePatternSet,
    /// The files that are passed over.
    pub exclude: FilePatternSet,
    /// What the user adds to the files that are passed over.
    pub user_exclude: FilePatternSet,
    /// Whether the exclusions hold of the paths of the command line too.
    pub force_exclude: bool,
}

impl FileResolverSettings {
    /// The settings with the built-in patterns, where `separator` is the
    /// path separator of the platform. Nothing is excluded by the user, and
    /// the paths of the command line are not held to the exclusions.
    pub fn new(separator: char) -> (made: Result<FileResolverSettings, PatternError>)
        ensures
            made matches Ok(settings) ==> {
                &&& builtin_patterns(settings.included.patterns(), included_names())
                &&& builtin_patterns(settings.exclude.patterns(), excluded_names())
                &&& settings.user_exclude.patterns() == Seq::<FilePattern>::empty()
                &&& glob_set_len(settings.user_exclude.globs()) == 0
                &&& !settings.force_exclude
            },
    {
        let included = match FilePatternSet::try_from_iter(default_includes(), separator) {
            Ok(set) => set,
            Err(error) => {
                return Err(error);
            },
        };
        let exclude = match FilePatternSet::try_from_iter(default_excludes(), separator) {
            Ok(set) => set,
            Err(error) => {
                return Err(error);
            },
        };
        Ok(
            FileResolverSettings {
                included,
                exclude,
                user_exclude: FilePatternSet::default(),
                force_exclude: false,
            },
        )
    }
}

/// The settings of a lint run.
pub struct Settings {
    /// Whether `.gitignore` and other standard ignore files are respected.
    pub respect_gitignore: bool,
    /// The settings of the search for files.
    pub file_resolver: FileResolverSettings,
    /// The settings of the linter proper.
    pub linter_settings: LinterSettings,
}

impl Settings {
    /// The settings of a run with the built-in file patterns.
    pub fn new(respect_gitignore: bool, fix_mode: FixMode, separator: char) -> (made: Result<
        Settings,
        PatternError,
    >)
        ensures
            made matches Ok(settings) ==> {
                &&& settings.respect_gitignore == respect_gitignore
                &&& settings.linter_settings.fix_mode == fix_mode
                &&& builtin_patterns(settings.file_resolver.included.patterns(), included_names())
                &&& builtin_patterns(settings.file_resolver.exclude.patterns(), excluded_names())
                &&& glob_set_len(settings.file_resolver.user_exclude.globs()) == 0
                &&& !settings.file_resolver.force_exclude
            },
    {
        match FileResolverSettings::new(separator) {
            Ok(file_resolver) => Ok(
                Settings {
                    respect_gitignore,
                    file_resolver,
                    linter_settings: LinterSettings { fix_mode },
                },
            ),
            Err(error) => Err(error),
        }
    }
}

} // verus!
