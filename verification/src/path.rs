//! Paths as plain strings.
//!
//! A path is a sequence of characters in which `/` separates components; on
//! Windows `\` separates them as well. Components that the library adds are
//! always joined with `/`, which both platforms accept.

use vstd::prelude::*;
use vstd::string::StringExecFns;

verus! {

/// The two platform families whose layouts the launcher knows.
#[derive(Clone, Copy, Debug, PartialEq, Eq, Structural)]
pub enum Platform {
    /// Every platform but Windows.
    Unix,
    /// Windows, where executables carry the `.exe` suffix.
    Windows,
}

/// Whether `c` separates two components of a path on `platform`.
pub open spec fn is_separator(c: char, platform: Platform) -> bool {
    c == '/' || (platform == Platform::Windows && c == '\\')
}

/// Whether some character of `p` is a separator.
pub open spec fn has_separator(p: Seq<char>, platform: Platform) -> bool {
    exists|i: int| 0 <= i < p.len() && is_separator(#[trigger] p[i], platform)
}

/// The length of `p` without the separators at its end.
pub open spec fn trimmed_len(p: Seq<char>, platform: Platform) -> nat
    decreases p.len(),
{
    if p.len() > 0 && is_separator(p.last(), platform) {
        trimmed_len(p.drop_last(), platform)
    } else {
        p.len()
    }
}

/// Where the last component of `p` begins: behind the last separator of `p`,
/// or at 0 where `p` has none.
pub open spec fn last_component_start(p: Seq<char>, platform: Platform) -> nat
    decreases p.len(),
{
    if p.len() == 0 || is_separator(p.last(), platform) {
        p.len()
    } else {
        last_component_start(p.drop_last(), platform)
    }
}

/// `base` with the component `name` added.
///
/// An empty `base` stands for the current directory and gives `name` itself.
/// A `base` that already ends in a separator gets no second one.
pub open spec fn spec_join(base: Seq<char>, name: Seq<char>, platform: Platform) -> Seq<char> {
    if base.len() == 0 {
        name
    } else if is_separator(base.last(), platform) {
        base + name
    } else {
        base + seq!['/'] + name
    }
}

/// The directory that holds `p`, if `p` names one.
///
/// The last component of `p` is dropped together with the separators before
/// it. Where what is left holds no separator, the one behind it is kept, for
/// it may be the root: the parent of `/a` is `/`, and that of `C:\a` is
/// `C:\`. A path that has no separator before its last component has no
/// parent: the empty path, a root such as `/`, and a bare name.
pub open spec fn spec_parent(p: Seq<char>, platform: Platform) -> Option<Seq<char>> {
    let end = trimmed_len(p, platform) as int;
    let start = last_component_start(p.take(end), platform) as int;
    if start == 0 {
        None
    } else {
        let kept = trimmed_len(p.take(start), platform) as int;
        if has_separator(p.take(kept), platform) {
            Some(p.take(kept))
        } else {
            Some(p.take(kept + 1))
        }
    }
}

/// The environment directory of the project at `root`.
pub open spec fn spec_venv_path(root: Seq<char>, platform: Platform) -> Seq<char> {
    spec_join(root, ".venv"@, platform)
}

/// The interpreter inside the environment `venv`: `bin/python` below it, or
/// `Scripts/python.exe` on Windows.
pub open spec fn spec_python_path(venv: Seq<char>, platform: Platform) -> Seq<char> {
    match platform {
        Platform::Unix => spec_join(spec_join(venv, "bin"@, platform), "python"@, platform),
        Platform::Windows => spec_join(
            spec_join(venv, "Scripts"@, platform),
            "python.exe"@,
            platform,
        ),
    }
}

/// Tells whether a character separates path components.
pub fn separates(c: char, platform: Platform) -> (r: bool)
    ensures
        r == is_separator(c, platform),
{
    c == '/' || (platform == Platform::Windows && c == '\\')
}

/// Adds the component `name` to `base`.
pub fn join(base: &str, name: &str, platform: Platform) -> (r: String)
    ensures
        r@ == spec_join(base@, name@, platform),
{
    let n: usize = base.unicode_len();
    if n == 0 {
        return name.to_owned();
    }
    let mut out = base.to_owned();
    if !separates(base.get_char(n - 1), platform) {
        proof {
            reveal_strlit("/");
            assert("/"@ =~= seq!['/']);
        }
        out.append("/");
    }
    out.append(name);
    out
}

/// Counts the characters of `path` before the separators at the end of its
/// first `len` characters.
fn trim(path: &str, len: usize, platform: Platform) -> (r: usize)
    requires
        len <= path@.len(),
    ensures
        r == trimmed_len(path@.take(len as int), platform),
        r <= len,
{
    let mut end: usize = len;
    while end > 0 && separates(path.get_char(end - 1), platform)
        invariant
            end <= len <= path@.len(),
            trimmed_len(path@.take(end as int), platform) == trimmed_len(
                path@.take(len as int),
                platform,
            ),
        decreases end,
    {
        proof {
            let cur = path@.take(end as int);
            assert(cur.last() == path@[end - 1]);
            assert(cur.drop_last() =~= path@.take(end - 1));
        }
        end = end - 1;
    }
    proof {
        let cur = path@.take(end as int);
        if end > 0 {
            assert(cur.last() == path@[end - 1]);
        }
    }
    end
}

/// Finds where the last component of the first `len` characters of `path`
/// begins.
fn component_start(path: &str, len: usize, platform: Platform) -> (r: usize)
    requires
        len <= path@.len(),
    ensures
        r == last_component_start(path@.take(len as int), platform),
        r <= len,
{
    let mut start: usize = len;
    while start > 0 && !separates(path.get_char(start - 1), platform)
        invariant
            start <= len <= path@.len(),
            last_component_start(path@.take(start as int), platform) == last_component_start(
                path@.take(len as int),
                platform,
            ),
        decreases start,
    {
        proof {
            let cur = path@.take(start as int);
            assert(cur.last() == path@[start - 1]);
            assert(cur.drop_last() =~= path@.take(start - 1));
        }
        start = start - 1;
    }
    proof {
        let cur = path@.take(start as int);
        if start > 0 {
            assert(cur.last() == path@[start - 1]);
        }
    }
    start
}

/// Tells whether one of the first `len` characters of `path` is a separator.
fn contains_separator(path: &str, len: usize, platform: Platform) -> (r: bool)
    requires
        len <= path@.len(),
    ensures
        r == has_separator(path@.take(len as int), platform),
{
    let ghost head = path@.take(len as int);
    let mut i: usize = 0;
    while i < len
        invariant
            i <= len <= path@.len(),
            head == path@.take(len as int),
            forall|j: int| 0 <= j < i ==> !is_separator(#[trigger] head[j], platform),
        decreases len - i,
    {
        if separates(path.get_char(i), platform) {
            assert(is_separator(head[i as int], platform));
            return true;
        }
        i = i + 1;
    }
    false
}

/// Gives the directory that holds `path`, or `None` where `path` has no
/// separator before its last component.
pub fn parent(path: &str, platform: Platform) -> (r: Option<String>)
    ensures
        r.deep_view() == spec_parent(path@, platform),
{
    let n: usize = path.unicode_len();
    assert(path@.take(n as int) =~= path@);
    let end: usize = trim(path, n, platform);
    let start: usize = component_start(path, end, platform);
    if start == 0 {
        return None;
    }
    let kept: usize = trim(path, start, platform);
    proof {
        let head = path@.take(start as int);
        assert(head.last() == path@[start - 1]);
        assert(kept < start) by {
            lemma_component_start_follows_separator(path@.take(end as int), platform);
            assert(path@.take(end as int)[start - 1] == path@[start - 1]);
            assert(is_separator(head.last(), platform));
            lemma_trimmed_len_bound(head.drop_last(), platform);
        }
    }
    let cut: usize = if contains_separator(path, kept, platform) {
        kept
    } else {
        kept + 1
    };
    let dir = path.substring_char(0, cut).to_owned();
    proof {
        assert(path@.subrange(0, cut as int) =~= path@.take(cut as int));
    }
    Some(dir)
}

/// Derives the environment directory of the project at `root`.
pub fn venv_path(root: &str, platform: Platform) -> (r: String)
    ensures
        r@ == spec_venv_path(root@, platform),
{
    join(root, ".venv", platform)
}

/// Derives the interpreter's path from the environment's path.
///
/// The result depends on nothing but the two arguments.
pub fn python_path(venv: &str, platform: Platform) -> (r: String)
    ensures
        r@ == spec_python_path(venv@, platform),
{
    match platform {
        Platform::Unix => {
            let bin = join(venv, "bin", platform);
            join(bin.as_str(), "python", platform)
        },
        Platform::Windows => {
            let scripts = join(venv, "Scripts", platform);
            join(scripts.as_str(), "python.exe", platform)
        },
    }
}

/// The parent of a path is a shorter beginning of it, so that a walk from
/// parent to parent comes to an end.
pub proof fn lemma_parent_is_proper_prefix(p: Seq<char>, platform: Platform)
    ensures
        spec_parent(p, platform) matches Some(dir) ==> dir.len() < p.len() && dir == p.take(
            dir.len() as int,
        ),
{
    let end = trimmed_len(p, platform) as int;
    let start = last_component_start(p.take(end), platform) as int;
    lemma_trimmed_len_bound(p, platform);
    lemma_component_start_follows_separator(p.take(end), platform);
    if start > 0 {
        let kept = trimmed_len(p.take(start), platform) as int;
        lemma_trimmed_len_bound(p.take(start), platform);
        assert(kept < start) by {
            let head = p.take(start);
            assert(head.last() == p.take(end)[start - 1]);
            lemma_trimmed_len_bound(head.drop_last(), platform);
        }
        assert(start < end) by {
            assert(p.take(end).last() == p[end - 1]);
            lemma_component_is_not_empty(p.take(end), platform);
        }
        assert(p.take(kept).take(kept) =~= p.take(kept));
        assert(p.take(kept + 1).take(kept + 1) =~= p.take(kept + 1));
    }
}

/// Below an environment that is named without a separator at its end, the
/// interpreter is `bin/python`, and `Scripts/python.exe` on Windows.
pub proof fn lemma_python_path_layout(venv: Seq<char>, platform: Platform)
    requires
        venv.len() > 0,
        !is_separator(venv.last(), platform),
    ensures
        platform == Platform::Unix ==> spec_python_path(venv, platform) == venv
            + "/bin/python"@,
        platform == Platform::Windows ==> spec_python_path(venv, platform) == venv
            + "/Scripts/python.exe"@,
{
    reveal_strlit("bin");
    reveal_strlit("python");
    reveal_strlit("/bin/python");
    reveal_strlit("Scripts");
    reveal_strlit("python.exe");
    reveal_strlit("/Scripts/python.exe");
    match platform {
        Platform::Unix => {
            let bin = spec_join(venv, "bin"@, platform);
            assert(bin =~= venv + seq!['/'] + "bin"@);
            assert(bin.last() == 'n');
            assert(spec_join(bin, "python"@, platform) =~= venv + "/bin/python"@);
        },
        Platform::Windows => {
            let scripts = spec_join(venv, "Scripts"@, platform);
            assert(scripts =~= venv + seq!['/'] + "Scripts"@);
            assert(scripts.last() == 's');
            assert(spec_join(scripts, "python.exe"@, platform) =~= venv
                + "/Scripts/python.exe"@);
        },
    }
}

/// Below a root that is named without a separator at its end, the
/// environment is `.venv`.
pub proof fn lemma_venv_path_layout(root: Seq<char>, platform: Platform)
    requires
        root.len() > 0,
        !is_separator(root.last(), platform),
    ensures
        spec_venv_path(root, platform) == root + "/.venv"@,
{
    reveal_strlit(".venv");
    reveal_strlit("/.venv");
    assert(spec_join(root, ".venv"@, platform) =~= root + "/.venv"@);
}

/// Trimming never lengthens a path, and what it leaves does not end in a
/// separator.
proof fn lemma_trimmed_len_bound(p: Seq<char>, platform: Platform)
    ensures
        trimmed_len(p, platform) <= p.len(),
        trimmed_len(p, platform) > 0 ==> !is_separator(
            p[trimmed_len(p, platform) - 1],
            platform,
        ),
    decreases p.len(),
{
    if p.len() > 0 && is_separator(p.last(), platform) {
        lemma_trimmed_len_bound(p.drop_last(), platform);
    }
}

/// A path that does not end in a separator has a last component.
proof fn lemma_component_is_not_empty(p: Seq<char>, platform: Platform)
    requires
        p.len() > 0,
        !is_separator(p.last(), platform),
    ensures
        last_component_start(p, platform) < p.len(),
    decreases p.len(),
{
    lemma_component_start_follows_separator(p.drop_last(), platform);
}

/// The character before a component's start, where there is one, is a
/// separator.
proof fn lemma_component_start_follows_separator(p: Seq<char>, platform: Platform)
    ensures
        last_component_start(p, platform) <= p.len(),
        last_component_start(p, platform) > 0 ==> is_separator(
            p[last_component_start(p, platform) - 1],
            platform,
        ),
    decreases p.len(),
{
    if p.len() == 0 || is_separator(p.last(), platform) {
    } else {
        lemma_component_start_follows_separator(p.drop_last(), platform);
    }
}

} // verus!
