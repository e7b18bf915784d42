use launcher::error::LaunchError;
use launcher::path::Platform;
use launcher::root::{
    candidates, contains_path, find_entry, find_project_root, Entry, ProjectRoot, SEARCH_LEVELS,
};

fn files(paths: &[&str]) -> Vec<String> {
    paths.iter().map(|p| p.to_string()).collect()
}

fn found(dir: &str, entry: Entry) -> Result<ProjectRoot, LaunchError> {
    Ok(ProjectRoot { dir: dir.to_string(), entry })
}

#[test]
fn search_looks_at_eight_directories() {
    assert_eq!(SEARCH_LEVELS, 8);
}

#[test]
fn entry_paths_as_seen_from_the_root() {
    assert_eq!(Entry::TopLevel.relative_path(), "main.py");
    assert_eq!(Entry::Nested.relative_path(), "game/main.py");
}

#[test]
fn contains_path_compares_whole_paths() {
    let listed = files(&["/app/main.py", "/app/game/main.py"]);
    assert!(contains_path(&listed, "/app/main.py"));
    assert!(contains_path(&listed, "/app/game/main.py"));
    assert!(!contains_path(&listed, "/app/main"));
    assert!(!contains_path(&listed, "app/main.py"));
    assert!(!contains_path(&files(&[]), "/app/main.py"));
}

#[test]
fn find_entry_sees_either_script() {
    let top = files(&["/app/main.py"]);
    let nested = files(&["/app/game/main.py"]);
    assert_eq!(find_entry("/app", &top, Platform::Unix), Some(Entry::TopLevel));
    assert_eq!(find_entry("/app", &nested, Platform::Unix), Some(Entry::Nested));
    assert_eq!(find_entry("/other", &top, Platform::Unix), None);
    assert_eq!(find_entry("/app", &files(&[]), Platform::Unix), None);
}

#[test]
fn find_entry_prefers_the_nested_script() {
    let both = files(&["/app/main.py", "/app/game/main.py"]);
    assert_eq!(find_entry("/app", &both, Platform::Unix), Some(Entry::Nested));
}

#[test]
fn root_is_the_directory_of_the_executable() {
    let listed = files(&["/app/main.py"]);
    assert_eq!(
        find_project_root("/app/launcher", &listed, Platform::Unix),
        found("/app", Entry::TopLevel)
    );
}

#[test]
fn root_is_the_immediate_parent() {
    let listed = files(&["/app/main.py"]);
    assert_eq!(
        find_project_root("/app/bin/launcher", &listed, Platform::Unix),
        found("/app", Entry::TopLevel)
    );
}

#[test]
fn root_with_nested_script_some_levels_up() {
    let listed = files(&["/app/game/main.py"]);
    assert_eq!(
        find_project_root("/app/launcher/target/release/launcher", &listed, Platform::Unix),
        found("/app", Entry::Nested)
    );
}

#[test]
fn root_is_the_nearest_directory_with_a_script() {
    let listed = files(&["/main.py", "/app/main.py", "/app/launcher/game/main.py"]);
    assert_eq!(
        find_project_root("/app/launcher/target/release/launcher", &listed, Platform::Unix),
        found("/app/launcher", Entry::Nested)
    );
}

#[test]
fn root_at_the_eighth_level_is_found() {
    let listed = files(&["/r/main.py"]);
    assert_eq!(
        find_project_root("/r/1/2/3/4/5/6/7/launcher", &listed, Platform::Unix),
        found("/r", Entry::TopLevel)
    );
}

#[test]
fn root_beyond_the_eighth_level_is_not_found() {
    let listed = files(&["/r/main.py"]);
    assert_eq!(
        find_project_root("/r/1/2/3/4/5/6/7/8/launcher", &listed, Platform::Unix),
        Err(LaunchError::RootNotFound)
    );
}

#[test]
fn root_may_be_the_file_system_root() {
    let listed = files(&["/main.py"]);
    assert_eq!(
        find_project_root("/bin/launcher", &listed, Platform::Unix),
        found("/", Entry::TopLevel)
    );
}

#[test]
fn search_ends_at_the_file_system_root() {
    let listed = files(&["main.py", "game/main.py", "/other/main.py"]);
    assert_eq!(
        find_project_root("/app/launcher", &listed, Platform::Unix),
        Err(LaunchError::RootNotFound)
    );
}

#[test]
fn no_script_anywhere_is_root_not_found() {
    assert_eq!(
        find_project_root("/app/launcher/target/release/launcher", &files(&[]), Platform::Unix),
        Err(LaunchError::RootNotFound)
    );
}

#[test]
fn script_in_a_sibling_directory_does_not_count() {
    let listed = files(&["/app/other/main.py", "/app/launcher/src/game/main.py"]);
    assert_eq!(
        find_project_root("/app/launcher/target/launcher", &listed, Platform::Unix),
        Err(LaunchError::RootNotFound)
    );
}

#[test]
fn executable_without_directory_is_path_resolution_error() {
    let listed = files(&["main.py", "/main.py"]);
    assert_eq!(
        find_project_root("launcher", &listed, Platform::Unix),
        Err(LaunchError::PathResolutionError)
    );
    assert_eq!(
        find_project_root("", &listed, Platform::Unix),
        Err(LaunchError::PathResolutionError)
    );
    assert_eq!(
        find_project_root("/", &listed, Platform::Unix),
        Err(LaunchError::PathResolutionError)
    );
}

#[test]
fn root_on_windows() {
    let listed = files(&["C:\\proj/game/main.py"]);
    assert_eq!(
        find_project_root(
            "C:\\proj\\launcher\\target\\release\\launcher.exe",
            &listed,
            Platform::Windows
        ),
        found("C:\\proj", Entry::Nested)
    );
}

#[test]
fn candidates_are_listed_nearest_first() {
    assert_eq!(
        candidates("/a/b/launcher", Platform::Unix),
        files(&[
            "/a/b/game/main.py",
            "/a/b/main.py",
            "/a/game/main.py",
            "/a/main.py",
            "/game/main.py",
            "/main.py",
        ])
    );
}

#[test]
fn candidates_stop_at_the_bound() {
    let listed = candidates("/r/1/2/3/4/5/6/7/8/9/launcher", Platform::Unix);
    assert_eq!(listed.len(), 16);
    assert_eq!(listed[0], "/r/1/2/3/4/5/6/7/8/9/game/main.py");
    assert_eq!(listed[15], "/r/1/2/main.py");
}

#[test]
fn candidates_of_an_executable_without_directory_are_none() {
    assert_eq!(candidates("launcher", Platform::Unix), files(&[]));
}

#[test]
fn search_reads_only_the_candidates() {
    let exe = "/app/launcher/target/release/launcher";
    let all = files(&[
        "/app/main.py",
        "/app/launcher/Cargo.toml",
        "/elsewhere/game/main.py",
        "/app/.venv",
    ]);
    let asked = candidates(exe, Platform::Unix);
    let present: Vec<String> = asked.into_iter().filter(|p| all.contains(p)).collect();
    assert_eq!(present, files(&["/app/main.py"]));
    assert_eq!(
        find_project_root(exe, &present, Platform::Unix),
        find_project_root(exe, &all, Platform::Unix)
    );
}
