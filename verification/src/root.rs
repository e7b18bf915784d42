//! Finding the project root above the running executable.
//!
//! The root is the nearest directory, starting at the one that holds the
//! executable and going up, in which an entry script lies: `main.py` in the
//! directory itself, or `game/main.py` below it. The search looks at no more
//! than `SEARCH_LEVELS` directories.
//!
//! The file system is given as the list of paths that exist: `candidates`
//! says which paths the search asks about.

use crate::error::{LaunchError, LaunchErrorView};
use crate::path::{
    join, parent, spec_join, spec_parent, Platform,
};
use vstd::prelude::*;

verus! {

/// How many directories the search looks at, the executable's own included.
pub const SEARCH_LEVELS: usize = 8;

/// Where the entry script lies below the project root.
#[derive(Clone, Copy, Debug, PartialEq, Eq, Structural)]
pub enum Entry {
    /// `main.py` in the root itself.
    TopLevel,
    /// `main.py` in the directory `game` below the root.
    Nested,
}

impl Entry {
    /// The entry script's path as seen from the project root.
    pub open spec fn spec_relative_path(self) -> Seq<char> {
        match self {
            Entry::TopLevel => "main.py"@,
            Entry::Nested => "game/main.py"@,
        }
    }

    /// Gives the entry script's path as seen from the project root.
    pub fn relative_path(&self) -> (r: String)
        ensures
            r@ == self.spec_relative_path(),
    {
        match self {
            Entry::TopLevel => "main.py".to_owned(),
            Entry::Nested => "game/main.py".to_owned(),
        }
    }
}

/// A project root that the search found, with the entry script it holds.
#[derive(Clone, Debug, PartialEq, Eq)]
pub struct ProjectRoot {
    pub dir: String,
    pub entry: Entry,
}

/// A `ProjectRoot` with its directory as a sequence of characters.
pub struct ProjectRootView {
    pub dir: Seq<char>,
    pub entry: Entry,
}

impl View for ProjectRoot {
    type V = ProjectRootView;

    open spec fn view(&self) -> ProjectRootView {
        ProjectRootView { dir: self.dir@, entry: self.entry }
    }
}

/// The path of `main.py` in `dir`.
pub open spec fn top_level_script(dir: Seq<char>, platform: Platform) -> Seq<char> {
    spec_join(dir, "main.py"@, platform)
}

/// The path of `main.py` in the directory `game` below `dir`.
pub open spec fn nested_script(dir: Seq<char>, platform: Platform) -> Seq<char> {
    spec_join(spec_join(dir, "game"@, platform), "main.py"@, platform)
}

/// The entry script that `dir` holds according to `files`, if it holds one.
/// Where both scripts exist, the nested one is the entry.
pub open spec fn entry_in(dir: Seq<char>, files: Seq<Seq<char>>, platform: Platform) -> Option<
    Entry,
> {
    if files.contains(nested_script(dir, platform)) {
        Some(Entry::Nested)
    } else if files.contains(top_level_script(dir, platform)) {
        Some(Entry::TopLevel)
    } else {
        None
    }
}

/// The directory `steps` levels above `dir`, if the path reaches that far.
pub open spec fn climb(dir: Seq<char>, platform: Platform, steps: nat) -> Option<Seq<char>>
    decreases steps,
{
    if steps == 0 {
        Some(dir)
    } else {
        match spec_parent(dir, platform) {
            Some(up) => climb(up, platform, (steps - 1) as nat),
            None => None,
        }
    }
}

/// The directory `level` levels above the one that holds the executable
/// `exe`; level 0 is that directory itself.
pub open spec fn ancestor(exe: Seq<char>, platform: Platform, level: nat) -> Option<Seq<char>> {
    match spec_parent(exe, platform) {
        Some(dir) => climb(dir, platform, level),
        None => None,
    }
}

/// The nearest directory with an entry script among `dir` and the
/// directories above it, `levels` of them at most.
pub open spec fn search_upward(
    dir: Seq<char>,
    files: Seq<Seq<char>>,
    platform: Platform,
    levels: nat,
) -> Option<ProjectRootView>
    decreases levels,
{
    if levels == 0 {
        None
    } else {
        match entry_in(dir, files, platform) {
            Some(entry) => Some(ProjectRootView { dir, entry }),
            None => match spec_parent(dir, platform) {
                Some(up) => search_upward(up, files, platform, (levels - 1) as nat),
                None => None,
            },
        }
    }
}

/// What the search for the project root gives for the executable `exe`,
/// where `files` are the paths that exist.
pub open spec fn spec_find_project_root(
    exe: Seq<char>,
    files: Seq<Seq<char>>,
    platform: Platform,
) -> Result<ProjectRootView, LaunchErrorView> {
    match spec_parent(exe, platform) {
        None => Err(LaunchErrorView::PathResolutionError),
        Some(dir) => match search_upward(dir, files, platform, SEARCH_LEVELS as nat) {
            Some(root) => Ok(root),
            None => Err(LaunchErrorView::RootNotFound),
        },
    }
}

/// The script paths that a search from `dir` asks about, nearest first.
pub open spec fn candidates_from(dir: Seq<char>, platform: Platform, levels: nat) -> Seq<
    Seq<char>,
>
    decreases levels,
{
    if levels == 0 {
        Seq::empty()
    } else {
        let here = seq![nested_script(dir, platform), top_level_script(dir, platform)];
        match spec_parent(dir, platform) {
            Some(up) => here + candidates_from(up, platform, (levels - 1) as nat),
            None => here,
        }
    }
}

/// The script paths that the search for the root of `exe` asks about.
pub open spec fn spec_candidates(exe: Seq<char>, platform: Platform) -> Seq<Seq<char>> {
    match spec_parent(exe, platform) {
        Some(dir) => candidates_from(dir, platform, SEARCH_LEVELS as nat),
        None => Seq::empty(),
    }
}

/// Tells whether `path` is one of `files`.
pub fn contains_path(files: &Vec<String>, path: &str) -> (r: bool)
    ensures
        r == files.deep_view().contains(path@),
{
    let target = path.to_owned();
    let mut i: usize = 0;
    while i < files.len()
        invariant
            i <= files.len(),
            target@ == path@,
            forall|j: int| 0 <= j < i ==> (#[trigger] files.deep_view()[j]) != path@,
        decreases files.len() - i,
    {
        if files[i] == target {
            assert(files.deep_view()[i as int] == path@);
            return true;
        }
        i = i + 1;
    }
    false
}

/// Looks for an entry script in `dir`.
pub fn find_entry(dir: &str, files: &Vec<String>, platform: Platform) -> (r: Option<Entry>)
    ensures
        r == entry_in(dir@, files.deep_view(), platform),
{
    let game = join(dir, "game", platform);
    let nested = join(game.as_str(), "main.py", platform);
    if contains_path(files, nested.as_str()) {
        return Some(Entry::Nested);
    }
    let top = join(dir, "main.py", platform);
    if contains_path(files, top.as_str()) {
        Some(Entry::TopLevel)
    } else {
        None
    }
}

/// Finds the project root for the executable at `exe`, where `files` are the
/// paths that exist.
///
/// The root is the nearest directory with an entry script among the one that
/// holds the executable and the seven above it. The search fails with
/// `PathResolutionError` where `exe` names no directory, and with
/// `RootNotFound` where none of those directories holds an entry script.
pub fn find_project_root(exe: &str, files: &Vec<String>, platform: Platform) -> (r: Result<
    ProjectRoot,
    LaunchError,
>)
    ensures
        match r {
            Ok(root) => spec_find_project_root(exe@, files.deep_view(), platform) == Ok::<
                ProjectRootView,
                LaunchErrorView,
            >(root@),
            Err(e) => spec_find_project_root(exe@, files.deep_view(), platform) == Err::<
                ProjectRootView,
                LaunchErrorView,
            >(e@),
        },
{
    let mut dir = match parent(exe, platform) {
        Some(dir) => dir,
        None => {
            return Err(LaunchError::PathResolutionError);
        },
    };
    let ghost first = dir@;
    let ghost listed = files.deep_view();
    let mut level: usize = 0;
    while level < SEARCH_LEVELS
        invariant
            level <= SEARCH_LEVELS,
            listed == files.deep_view(),
            spec_parent(exe@, platform) == Some(first),
            search_upward(dir@, listed, platform, (SEARCH_LEVELS - level) as nat) == search_upward(
                first,
                listed,
                platform,
                SEARCH_LEVELS as nat,
            ),
        decreases SEARCH_LEVELS - level,
    {
        match find_entry(dir.as_str(), files, platform) {
            Some(entry) => {
                return Ok(ProjectRoot { dir, entry });
            },
            None => {},
        }
        match parent(dir.as_str(), platform) {
            Some(up) => {
                dir = up;
            },
            None => {
                return Err(LaunchError::RootNotFound);
            },
        }
        level = level + 1;
    }
    Err(LaunchError::RootNotFound)
}

/// Lists the script paths whose existence decides the search for the root of
/// `exe`, nearest first.
pub fn candidates(exe: &str, platform: Platform) -> (r: Vec<String>)
    ensures
        r.deep_view() == spec_candidates(exe@, platform),
{
    let mut out: Vec<String> = Vec::new();
    let mut dir = match parent(exe, platform) {
        Some(dir) => dir,
        None => {
            assert(out.deep_view() =~= Seq::<Seq<char>>::empty());
            return out;
        },
    };
    let ghost first = dir@;
    let mut level: usize = 0;
    assert(out.deep_view() =~= Seq::<Seq<char>>::empty());
    while level < SEARCH_LEVELS
        invariant
            level <= SEARCH_LEVELS,
            spec_parent(exe@, platform) == Some(first),
            out.deep_view() + candidates_from(dir@, platform, (SEARCH_LEVELS - level) as nat)
                == candidates_from(first, platform, SEARCH_LEVELS as nat),
        decreases SEARCH_LEVELS - level,
    {
        let ghost before = out.deep_view();
        let game = join(dir.as_str(), "game", platform);
        let nested = join(game.as_str(), "main.py", platform);
        let top = join(dir.as_str(), "main.py", platform);
        out.push(nested);
        out.push(top);
        let ghost here = seq![nested_script(dir@, platform), top_level_script(dir@, platform)];
        assert(out.deep_view() =~= before + here);
        match parent(dir.as_str(), platform) {
            Some(up) => {
                assert(before + (here + candidates_from(
                    up@,
                    platform,
                    (SEARCH_LEVELS - level - 1) as nat,
                )) =~= (before + here) + candidates_from(
                    up@,
                    platform,
                    (SEARCH_LEVELS - level - 1) as nat,
                ));
                dir = up;
            },
            None => {
                assert(out.deep_view() =~= candidates_from(first, platform, SEARCH_LEVELS as nat));
                return out;
            },
        }
        level = level + 1;
    }
    assert(out.deep_view() =~= candidates_from(first, platform, SEARCH_LEVELS as nat));
    out
}

/// The nearest directory that holds an entry script is the root that the
/// search gives: where the directory `level` levels above the executable,
/// within the bound, holds an entry script and no directory nearer to the
/// executable does, the search succeeds with that directory and that script.
pub proof fn lemma_nearest_entry_directory_is_root(
    exe: Seq<char>,
    files: Seq<Seq<char>>,
    platform: Platform,
    level: nat,
)
    requires
        level < SEARCH_LEVELS,
        ancestor(exe, platform, level) is Some,
        entry_in(ancestor(exe, platform, level).unwrap(), files, platform) is Some,
        forall|j: nat|
            j < level && (#[trigger] ancestor(exe, platform, j)) is Some ==> entry_in(
                ancestor(exe, platform, j).unwrap(),
                files,
                platform,
            ) is None,
    ensures
        spec_find_project_root(exe, files, platform) == Ok::<ProjectRootView, LaunchErrorView>(
            ProjectRootView {
                dir: ancestor(exe, platform, level).unwrap(),
                entry: entry_in(ancestor(exe, platform, level).unwrap(), files, platform).unwrap(),
            },
        ),
{
    let dir = spec_parent(exe, platform).unwrap();
    assert forall|j: nat| j < level && (#[trigger] climb(dir, platform, j)) is Some implies entry_in(
        climb(dir, platform, j).unwrap(),
        files,
        platform,
    ) is None by {
        assert(ancestor(exe, platform, j) == climb(dir, platform, j));
    }
    lemma_search_stops_at_first_entry(dir, files, platform, SEARCH_LEVELS as nat, level);
}

/// Where no directory within the bound above the executable holds an entry
/// script, the search fails with `RootNotFound`. The executable must name a
/// directory: without one the search fails earlier, with
/// `PathResolutionError`.
pub proof fn lemma_no_entry_within_bound_is_root_not_found(
    exe: Seq<char>,
    files: Seq<Seq<char>>,
    platform: Platform,
)
    requires
        spec_parent(exe, platform) is Some,
        forall|j: nat|
            j < SEARCH_LEVELS && (#[trigger] ancestor(exe, platform, j)) is Some ==> entry_in(
                ancestor(exe, platform, j).unwrap(),
                files,
                platform,
            ) is None,
    ensures
        spec_find_project_root(exe, files, platform) == Err::<ProjectRootView, LaunchErrorView>(
            LaunchErrorView::RootNotFound,
        ),
{
    let dir = spec_parent(exe, platform).unwrap();
    assert forall|j: nat|
        j < SEARCH_LEVELS && (#[trigger] climb(dir, platform, j)) is Some implies entry_in(
        climb(dir, platform, j).unwrap(),
        files,
        platform,
    ) is None by {
        assert(ancestor(exe, platform, j) == climb(dir, platform, j));
    }
    lemma_search_without_entry_is_empty(dir, files, platform, SEARCH_LEVELS as nat);
}

/// A root that the search gives is the nearest directory with an entry
/// script: it lies `level` levels above the executable, within the bound, it
/// holds the script that the result names, and no directory nearer to the
/// executable holds one.
pub proof fn lemma_root_is_nearest_entry_directory(
    exe: Seq<char>,
    files: Seq<Seq<char>>,
    platform: Platform,
    root: ProjectRootView,
) -> (level: nat)
    requires
        spec_find_project_root(exe, files, platform) == Ok::<ProjectRootView, LaunchErrorView>(
            root,
        ),
    ensures
        level < SEARCH_LEVELS,
        ancestor(exe, platform, level) == Some(root.dir),
        entry_in(root.dir, files, platform) == Some(root.entry),
        forall|j: nat|
            j < level && (#[trigger] ancestor(exe, platform, j)) is Some ==> entry_in(
                ancestor(exe, platform, j).unwrap(),
                files,
                platform,
            ) is None,
{
    let dir = spec_parent(exe, platform).unwrap();
    let level = lemma_search_result_is_first_entry(dir, files, platform, SEARCH_LEVELS as nat);
    assert forall|j: nat| j < level && (#[trigger] ancestor(exe, platform, j)) is Some implies entry_in(
        ancestor(exe, platform, j).unwrap(),
        files,
        platform,
    ) is None by {
        assert(ancestor(exe, platform, j) == climb(dir, platform, j));
    }
    level
}

/// The search reads nothing but the candidate paths: two lists of existing
/// paths that agree on every candidate give the same result.
pub proof fn lemma_only_candidates_decide(
    exe: Seq<char>,
    files: Seq<Seq<char>>,
    other: Seq<Seq<char>>,
    platform: Platform,
)
    requires
        forall|p: Seq<char>|
            (#[trigger] spec_candidates(exe, platform).contains(p)) ==> (files.contains(p)
                <==> other.contains(p)),
    ensures
        spec_find_project_root(exe, files, platform) == spec_find_project_root(
            exe,
            other,
            platform,
        ),
{
    match spec_parent(exe, platform) {
        Some(dir) => {
            assert(spec_candidates(exe, platform) == candidates_from(
                dir,
                platform,
                SEARCH_LEVELS as nat,
            ));
            lemma_search_reads_candidates(dir, files, other, platform, SEARCH_LEVELS as nat);
        },
        None => {},
    }
}

proof fn lemma_search_stops_at_first_entry(
    dir: Seq<char>,
    files: Seq<Seq<char>>,
    platform: Platform,
    levels: nat,
    k: nat,
)
    requires
        k < levels,
        climb(dir, platform, k) is Some,
        entry_in(climb(dir, platform, k).unwrap(), files, platform) is Some,
        forall|j: nat|
            j < k && (#[trigger] climb(dir, platform, j)) is Some ==> entry_in(
                climb(dir, platform, j).unwrap(),
                files,
                platform,
            ) is None,
    ensures
        search_upward(dir, files, platform, levels) == Some(
            ProjectRootView {
                dir: climb(dir, platform, k).unwrap(),
                entry: entry_in(climb(dir, platform, k).unwrap(), files, platform).unwrap(),
            },
        ),
    decreases k,
{
    if k > 0 {
        assert(climb(dir, platform, 0) == Some(dir));
        let up = spec_parent(dir, platform).unwrap();
        assert forall|j: nat|
            j < k - 1 && (#[trigger] climb(up, platform, j)) is Some implies entry_in(
            climb(up, platform, j).unwrap(),
            files,
            platform,
        ) is None by {
            assert(climb(dir, platform, j + 1) == climb(up, platform, j));
        }
        lemma_search_stops_at_first_entry(
            up,
            files,
            platform,
            (levels - 1) as nat,
            (k - 1) as nat,
        );
    }
}

proof fn lemma_search_without_entry_is_empty(
    dir: Seq<char>,
    files: Seq<Seq<char>>,
    platform: Platform,
    levels: nat,
)
    requires
        forall|j: nat|
            j < levels && (#[trigger] climb(dir, platform, j)) is Some ==> entry_in(
                climb(dir, platform, j).unwrap(),
                files,
                platform,
            ) is None,
    ensures
        search_upward(dir, files, platform, levels) is None,
    decreases levels,
{
    if levels > 0 {
        assert(climb(dir, platform, 0) == Some(dir));
        match spec_parent(dir, platform) {
            Some(up) => {
                assert forall|j: nat|
                    j < levels - 1 && (#[trigger] climb(up, platform, j)) is Some implies entry_in(
                    climb(up, platform, j).unwrap(),
                    files,
                    platform,
                ) is None by {
                    assert(climb(dir, platform, j + 1) == climb(up, platform, j));
                }
                lemma_search_without_entry_is_empty(up, files, platform, (levels - 1) as nat);
            },
            None => {},
        }
    }
}

proof fn lemma_search_result_is_first_entry(
    dir: Seq<char>,
    files: Seq<Seq<char>>,
    platform: Platform,
    levels: nat,
) -> (k: nat)
    requires
        search_upward(dir, files, platform, levels) is Some,
    ensures
        k < levels,
        climb(dir, platform, k) == Some(search_upward(dir, files, platform, levels).unwrap().dir),
        entry_in(search_upward(dir, files, platform, levels).unwrap().dir, files, platform)
            == Some(search_upward(dir, files, platform, levels).unwrap().entry),
        forall|j: nat|
            j < k && (#[trigger] climb(dir, platform, j)) is Some ==> entry_in(
                climb(dir, platform, j).unwrap(),
                files,
                platform,
            ) is None,
    decreases levels,
{
    if entry_in(dir, files, platform) is Some {
        0
    } else {
        let up = spec_parent(dir, platform).unwrap();
        let above = lemma_search_result_is_first_entry(up, files, platform, (levels - 1) as nat);
        assert forall|j: nat|
            j < above + 1 && (#[trigger] climb(dir, platform, j)) is Some implies entry_in(
            climb(dir, platform, j).unwrap(),
            files,
            platform,
        ) is None by {
            if j > 0 {
                assert(climb(dir, platform, j) == climb(up, platform, (j - 1) as nat));
            }
        }
        above + 1
    }
}

proof fn lemma_search_reads_candidates(
    dir: Seq<char>,
    files: Seq<Seq<char>>,
    other: Seq<Seq<char>>,
    platform: Platform,
    levels: nat,
)
    requires
        forall|p: Seq<char>|
            (#[trigger] candidates_from(dir, platform, levels).contains(p)) ==> (files.contains(p)
                <==> other.contains(p)),
    ensures
        search_upward(dir, files, platform, levels) == search_upward(dir, other, platform, levels),
    decreases levels,
{
    if levels > 0 {
        let all = candidates_from(dir, platform, levels);
        let here = seq![nested_script(dir, platform), top_level_script(dir, platform)];
        assert(all[0] == nested_script(dir, platform));
        assert(all[1] == top_level_script(dir, platform));
        assert(all.contains(nested_script(dir, platform)));
        assert(all.contains(top_level_script(dir, platform)));
        match spec_parent(dir, platform) {
            Some(up) => {
                let rest = candidates_from(up, platform, (levels - 1) as nat);
                assert forall|p: Seq<char>| (#[trigger] rest.contains(p)) implies (files.contains(
                    p,
                ) <==> other.contains(p)) by {
                    let i = choose|i: int| 0 <= i < rest.len() && rest[i] == p;
                    assert(all[i + 2] == p);
                    assert(all.contains(p));
                }
                lemma_search_reads_candidates(up, files, other, platform, (levels - 1) as nat);
            },
            None => {},
        }
    }
}

} // verus!
