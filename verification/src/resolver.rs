//! The decisions of the search for the files to lint: which paths are
//! searched, which entries of the search are kept, and how the finds of
//! the workers are put together.

use vstd::prelude::*;
use globset::GlobSet;
use crate::settings::{glob_set_is_match, glob_set_len, glob_set_paths, Settings};

verus! {

/// What answers the questions of the search about the settings that hold
/// of a path.
pub struct Resolver<'a> {
    settings: &'a Settings,
}

impl<'a> Resolver<'a> {
    /// The settings that the resolver answers from.
    pub closed spec fn spec_settings(self) -> Settings {
        *self.settings
    }

    /// A resolver that answers from `settings`.
    pub fn new(settings: &'a Settings) -> (resolver: Resolver<'a>)
        ensures
            resolver.spec_settings() == *settings,
    {
        Resolver { settings }
    }

    /// Whether `.gitignore` and other standard ignore files are respected.
    pub fn respect_gitignore(&self) -> (respected: bool)
        ensures
            respected == self.spec_settings().respect_gitignore,
    {
        self.settings.respect_gitignore
    }

    /// Whether the exclusions hold of the paths of the command line too.
    pub fn force_exclude(&self) -> (forced: bool)
        ensures
            forced == self.spec_settings().file_resolver.force_exclude,
    {
        self.settings.file_resolver.force_exclude
    }

    /// The settings that hold of the path: the same for every path.
    pub fn resolve(&self, _path: &str) -> (settings: &'a Settings)
        ensures
            *settings == self.spec_settings(),
    {
        self.settings
    }
}

/// A file that the search has found.
#[derive(Clone, Debug, PartialEq, Eq)]
pub enum ResolvedFile {
    /// A file that was named on the command line.
    Root(String),
    /// A file found below a directory that was named.
    Nested(String),
}

impl ResolvedFile {
    /// The path of the file.
    pub open spec fn spec_path(self) -> String {
        match self {
            ResolvedFile::Root(path) => path,
            ResolvedFile::Nested(path) => path,
        }
    }

    /// The path of the file.
    pub fn into_path(self) -> (path: String)
        ensures
            path == self.spec_path(),
    {
        match self {
            ResolvedFile::Root(path) => path,
            ResolvedFile::Nested(path) => path,
        }
    }

    /// The path of the file.
    pub fn path(&self) -> (path: &str)
        ensures
            path@ == self.spec_path()@,
    {
        match self {
            ResolvedFile::Root(root) => root.as_str(),
            ResolvedFile::Nested(root) => root.as_str(),
        }
    }

    /// Whether the file was named on the command line.
    pub fn is_root(&self) -> (root: bool)
        ensures
            root == (*self is Root),
    {
        match self {
            ResolvedFile::Root(_) => true,
            ResolvedFile::Nested(_) => false,
        }
    }
}

/// Whether no text occurs twice in `paths`.
pub open spec fn distinct(paths: Seq<Seq<char>>) -> bool {
    forall|i: int, j: int| 0 <= i < j < paths.len() ==> paths[i] != paths[j]
}

/// The texts of `paths` without repetitions: each text stands once, at the
/// place of its first occurrence among the others.
pub open spec fn without_repeats(paths: Seq<Seq<char>>) -> Seq<Seq<char>>
    decreases paths.len(),
{
    if paths.len() == 0 {
        paths
    } else {
        let front = without_repeats(paths.drop_last());
        if front.contains(paths.last()) {
            front
        } else {
            front.push(paths.last())
        }
    }
}

/// The texts of a list of paths.
pub open spec fn texts(paths: Seq<String>) -> Seq<Seq<char>> {
    paths.map_values(|path: String| path@)
}

/// What `without_repeats` keeps holds the same texts as the list it was
/// made from, each of them once.
pub proof fn lemma_without_repeats(paths: Seq<Seq<char>>)
    ensures
        distinct(without_repeats(paths)),
        forall|text: Seq<char>| without_repeats(paths).contains(text) <==> paths.contains(text),
        without_repeats(paths).len() <= paths.len(),
    decreases paths.len(),
{
    if paths.len() > 0 {
        let front = paths.drop_last();
        lemma_without_repeats(front);
        let kept = without_repeats(front);
        let all = without_repeats(paths);
        assert forall|text: Seq<char>| all.contains(text) implies paths.contains(text) by {
            let at = choose|at: int| 0 <= at < all.len() && all[at] == text;
            if at < kept.len() {
                assert(kept[at] == text);
                assert(kept.contains(text));
                assert(front.contains(text));
                let from = choose|from: int| 0 <= from < front.len() && front[from] == text;
                assert(paths[from] == text);
            } else {
                assert(paths[paths.len() - 1] == text);
            }
        }
        assert forall|text: Seq<char>| paths.contains(text) implies all.contains(text) by {
            let from = choose|from: int| 0 <= from < paths.len() && paths[from] == text;
            if from < front.len() {
                assert(front[from] == text);
                assert(front.contains(text));
                assert(kept.contains(text));
                let at = choose|at: int| 0 <= at < kept.len() && kept[at] == text;
                assert(all[at] == text);
            } else {
                if kept.contains(text) {
                    let at = choose|at: int| 0 <= at < kept.len() && kept[at] == text;
                    assert(all[at] == text);
                } else {
                    assert(all[all.len() - 1] == text);
                }
            }
        }
        assert forall|i: int, j: int| 0 <= i < j < all.len() implies all[i] != all[j] by {
            if j == kept.len() {
                assert(kept[i] == all[i]);
                if all[i] == all[j] {
                    assert(kept.contains(paths.last()));
                }
            }
        }
    }
}

fn holds(paths: &Vec<String>, wanted: &String) -> (found: bool)
    ensures
        found == texts(paths@).contains(wanted@),
{
    let mut at: usize = 0;
    while at < paths.len()
        invariant
            at <= paths@.len(),
            forall|i: int| 0 <= i < at ==> texts(paths@)[i] != wanted@,
        decreases paths@.len() - at,
    {
        if paths[at] == *wanted {
            assert(texts(paths@)[at as int] == wanted@);
            return true;
        }
        at = at + 1;
    }
    false
}

/// Drops the repetitions of a list of paths: each path is kept once, at
/// the place of its first occurrence.
pub fn unique(paths: Vec<String>) -> (kept: Vec<String>)
    ensures
        texts(kept@) == without_repeats(texts(paths@)),
{
    let mut kept: Vec<String> = Vec::new();
    let mut done: usize = 0;
    assert(texts(paths@).take(0) =~= Seq::<Seq<char>>::empty());
    assert(texts(kept@) =~= Seq::<Seq<char>>::empty());
    while done < paths.len()
        invariant
            done <= paths@.len(),
            texts(kept@) == without_repeats(texts(paths@).take(done as int)),
        decreases paths@.len() - done,
    {
        let ghost before = texts(kept@);
        let ghost next = texts(paths@).take(done + 1);
        proof {
            assert(next.drop_last() =~= texts(paths@).take(done as int));
            assert(next.last() == paths@[done as int]@);
        }
        if !holds(&kept, &paths[done]) {
            kept.push(paths[done].clone());
            assert(texts(kept@) =~= before.push(paths@[done as int]@));
        }
        done = done + 1;
    }
    assert(texts(paths@).take(done as int) =~= texts(paths@));
    kept
}

/// Whether a set of globs excludes a path: the set is not empty, and it
/// matches the whole path or its base name.
pub open spec fn excludes(set: GlobSet, path: Seq<char>, basename: Seq<char>) -> bool {
    glob_set_len(set) != 0 && (glob_set_paths(set).contains(path) || glob_set_paths(set).contains(
        basename,
    ))
}

/// Whether the set of globs `exclusion` excludes a path, given the path
/// and its base name.
pub fn match_candidate_exclusion(file_path: &str, file_basename: &str, exclusion: &GlobSet) -> (excluded:
    bool)
    ensures
        excluded == excludes(*exclusion, file_path@, file_basename@),
{
    if exclusion.is_empty() {
        return false;
    }
    glob_set_is_match(exclusion, file_path) || glob_set_is_match(exclusion, file_basename)
}

/// A path with its file name, if it has one: the root of a file system
/// has none.
#[derive(Clone, Debug, PartialEq, Eq)]
pub struct PathParts {
    /// The whole path.
    pub path: String,
    /// The last component of the path.
    pub file_name: Option<String>,
}

impl PathParts {
    /// Whether one of the two sets of globs excludes the path.
    pub open spec fn excluded_by(self, exclude: GlobSet, user_exclude: GlobSet) -> bool {
        match self.file_name {
            Some(name) => excludes(exclude, self.path@, name@) || excludes(
                user_exclude,
                self.path@,
                name@,
            ),
            None => false,
        }
    }
}

/// Whether a path with the ancestors `ancestors`, from the path itself
/// upwards, is excluded: one of the two sets excludes some ancestor, and
/// that ancestor and all below it have a file name.
pub open spec fn excluded_through(
    ancestors: Seq<PathParts>,
    exclude: GlobSet,
    user_exclude: GlobSet,
) -> bool {
    exists|at: int|
        0 <= at < ancestors.len() && (#[trigger] ancestors[at]).excluded_by(exclude, user_exclude)
            && forall|below: int|
            0 <= below < at ==> (#[trigger] ancestors[below]).file_name is Some
}

/// Whether a file is excluded by the built-in exclusions or by those of
/// the user, given the ancestors of its path, from the path itself
/// upwards.
pub fn is_file_excluded(ancestors: &Vec<PathParts>, resolver: &Resolver) -> (excluded: bool)
    ensures
        excluded == excluded_through(
            ancestors@,
            resolver.spec_settings().file_resolver.exclude.globs(),
            resolver.spec_settings().file_resolver.user_exclude.globs(),
        ),
{
    let ghost exclude = resolver.spec_settings().file_resolver.exclude.globs();
    let ghost user_exclude = resolver.spec_settings().file_resolver.user_exclude.globs();
    let mut at: usize = 0;
    while at < ancestors.len()
        invariant
            at <= ancestors@.len(),
            exclude == resolver.spec_settings().file_resolver.exclude.globs(),
            user_exclude == resolver.spec_settings().file_resolver.user_exclude.globs(),
            forall|below: int| 0 <= below < at ==> (#[trigger] ancestors@[below]).file_name is Some,
            forall|below: int|
                0 <= below < at ==> !(#[trigger] ancestors@[below]).excluded_by(exclude, user_exclude),
        decreases ancestors@.len() - at,
    {
        let ancestor = &ancestors[at];
        let settings = resolver.resolve(ancestor.path.as_str());
        match &ancestor.file_name {
            Some(file_name) => {
                if match_candidate_exclusion(
                    ancestor.path.as_str(),
                    file_name.as_str(),
                    &settings.file_resolver.exclude,
                ) {
                    return true;
                } else if match_candidate_exclusion(
                    ancestor.path.as_str(),
                    file_name.as_str(),
                    &settings.file_resolver.user_exclude,
                ) {
                    return true;
                }
            },
            None => {
                assert(!excluded_through(ancestors@, exclude, user_exclude)) by {
                    if excluded_through(ancestors@, exclude, user_exclude) {
                        let hit = choose|hit: int|
                            0 <= hit < ancestors@.len() && (#[trigger] ancestors@[hit]).excluded_by(
                                exclude,
                                user_exclude,
                            ) && forall|below: int|
                                0 <= below < hit ==> (#[trigger] ancestors@[below]).file_name is Some;
                        if hit > at {
                            assert(ancestors@[at as int].file_name is Some);
                        }
                    }
                }
                return false;
            },
        }
        at = at + 1;
    }
    false
}

/// What the search knows of an entry that it has come upon.
#[derive(Clone, Debug, PartialEq, Eq)]
pub struct Entry {
    /// The path of the entry.
    pub path: String,
    /// The last component of the path, if it has one.
    pub file_name: Option<String>,
    /// How far below a path of the command line the entry lies; zero for
    /// such a path itself.
    pub depth: usize,
    /// Whether the entry is a directory, or of unknown type.
    pub is_dir: bool,
}

/// How the search goes on after an entry.
#[derive(Clone, Copy, Debug, PartialEq, Eq, Structural)]
pub enum Walk {
    /// The search goes on, into the entry if it is a directory.
    Continue,
    /// The search passes over the entry and all below it.
    Skip,
}

impl Entry {
    /// Whether the search passes over the entry: it lies below a path of
    /// the command line, and it has no file name or is excluded.
    pub open spec fn passed_over(self, settings: Settings) -> bool {
        self.depth > 0 && match self.file_name {
            Some(name) => excludes(settings.file_resolver.exclude.globs(), self.path@, name@),
            None => true,
        }
    }

    /// What the search keeps of an entry that it does not pass over:
    /// nothing of a directory; a file of the command line as it is; a file
    /// below a directory if the inclusion patterns match its path.
    pub open spec fn kept_as(self, settings: Settings) -> Option<ResolvedFile> {
        if self.is_dir {
            None
        } else if self.depth == 0 {
            Some(ResolvedFile::Root(self.path))
        } else if settings.file_resolver.included.matches(self.path@) {
            Some(ResolvedFile::Nested(self.path))
        } else {
            None
        }
    }
}

/// Whether a visit that hands on `walk` takes the finds of a worker from
/// `before` to `after`:
/// - a failure of the search is kept as it is, and the search goes on;
/// - an entry that is passed over leaves no trace, and the search skips
///   what lies below it;
/// - of any other entry the search keeps what `kept_as` says, and goes on.
pub open spec fn visits<E>(
    result: Result<Entry, E>,
    settings: Settings,
    before: Seq<Result<ResolvedFile, E>>,
    after: Seq<Result<ResolvedFile, E>>,
    walk: Walk,
) -> bool {
    match result {
        Err(error) => walk == Walk::Continue && after == before.push(Err(error)),
        Ok(entry) => if entry.passed_over(settings) {
            walk == Walk::Skip && after == before
        } else {
            walk == Walk::Continue && after == (match entry.kept_as(settings) {
                Some(file) => before.push(Ok(file)),
                None => before,
            })
        },
    }
}

/// Decides on one outcome of the search, an entry or a failure, for the
/// worker whose finds are `local_files`.
pub fn visit<E>(
    local_files: &mut Vec<Result<ResolvedFile, E>>,
    result: Result<Entry, E>,
    resolver: &Resolver,
) -> (walk: Walk)
    ensures
        visits(result, resolver.spec_settings(), old(local_files)@, final(local_files)@, walk),
{
    match result {
        Ok(entry) => {
            if entry.depth > 0 {
                let settings = resolver.resolve(entry.path.as_str());
                match &entry.file_name {
                    Some(file_name) => {
                        if match_candidate_exclusion(
                            entry.path.as_str(),
                            file_name.as_str(),
                            &settings.file_resolver.exclude,
                        ) {
                            return Walk::Skip;
                        }
                    },
                    None => {
                        return Walk::Skip;
                    },
                }
            }
            let resolved = if entry.is_dir {
                None
            } else if entry.depth == 0 {
                Some(ResolvedFile::Root(entry.path))
            } else {
                let settings = resolver.resolve(entry.path.as_str());
                if settings.file_resolver.included.is_match(entry.path.as_str()) {
                    Some(ResolvedFile::Nested(entry.path))
                } else {
                    None
                }
            };
            match resolved {
                Some(file) => {
                    local_files.push(Ok(file));
                },
                None => {},
            }
        },
        Err(error) => {
            local_files.push(Err(error));
        },
    }
    Walk::Continue
}

/// A path of the command line, with its ancestors from the path itself
/// upwards.
pub struct SearchPath {
    /// The path.
    pub path: String,
    /// The path and what lies above it, each with its file name.
    pub ancestors: Vec<PathParts>,
}

/// The paths among `paths` that the search starts from: all of them,
/// unless the exclusions hold of the paths of the command line too; then
/// those that are not excluded. Their order stays.
pub open spec fn searched(paths: Seq<SearchPath>, settings: Settings) -> Seq<String>
    decreases paths.len(),
{
    if paths.len() == 0 {
        Seq::empty()
    } else {
        let front = searched(paths.drop_last(), settings);
        if settings.file_resolver.force_exclude && excluded_through(
            paths.last().ancestors@,
            settings.file_resolver.exclude.globs(),
            settings.file_resolver.user_exclude.globs(),
        ) {
            front
        } else {
            front.push(paths.last().path)
        }
    }
}

/// The paths that the search starts from.
pub fn searched_paths(paths: &Vec<SearchPath>, resolver: &Resolver) -> (kept: Vec<String>)
    ensures
        kept@ == searched(paths@, resolver.spec_settings()),
{
    let forced = resolver.force_exclude();
    let mut kept: Vec<String> = Vec::new();
    let mut done: usize = 0;
    while done < paths.len()
        invariant
            done <= paths@.len(),
            forced == resolver.spec_settings().file_resolver.force_exclude,
            kept@ == searched(paths@.take(done as int), resolver.spec_settings()),
        decreases paths@.len() - done,
    {
        proof {
            assert(paths@.take(done + 1).drop_last() =~= paths@.take(done as int));
        }
        if !(forced && is_file_excluded(&paths[done].ancestors, resolver)) {
            kept.push(paths[done].path.clone());
        }
        done = done + 1;
    }
    assert(paths@.take(done as int) =~= paths@);
    kept
}

/// Adds the finds of one worker to those of all: they are appended, in
/// their order, and the worker's list is left empty.
pub fn merge_files<T>(files: &mut Vec<T>, local: &mut Vec<T>)
    ensures
        final(files)@ == old(files)@ + old(local)@,
        final(local)@ == Seq::<T>::empty(),
{
    files.append(local);
}

/// Puts the outcome of one worker to that of all: the first failure
/// stays, and a later one is dropped.
pub fn merge_error<E>(error: Result<(), E>, local: Result<(), E>) -> (merged: Result<(), E>)
    ensures
        merged == (if error.is_ok() {
            local
        } else {
            error
        }),
{
    if error.is_ok() {
        local
    } else {
        error
    }
}

/// The number of workers of the search: as many as the machine can run in
/// parallel, one where that is not known, and twelve at most.
pub fn walk_threads(available: Option<usize>) -> (threads: usize)
    ensures
        threads == (match available {
            Some(count) => if count < 12 {
                count
            } else {
                12
            },
            None => 1,
        }),
{
    match available {
        Some(count) => if count < 12 {
            count
        } else {
            12
        },
        None => 1,
    }
}

} // verus!
