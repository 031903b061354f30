use reworkit::lister::{list_packages, str_has_prefix, str_has_substring, TreeEntry};

fn dir(path: &str, name: &str) -> TreeEntry {
    TreeEntry { path: path.to_string(), file_name: name.to_string(), is_dir: true }
}

fn file(path: &str, name: &str) -> TreeEntry {
    TreeEntry { path: path.to_string(), file_name: name.to_string(), is_dir: false }
}

#[test]
fn keeps_ordinary_package_directories_in_order() {
    let root = "TREE".to_string();
    let entries = vec![
        dir("TREE/extra-devel/gcc", "gcc"),
        dir("TREE/core/glibc", "glibc"),
    ];
    let pkgs = list_packages(&root, &entries);
    assert_eq!(pkgs, vec!["gcc".to_string(), "glibc".to_string()]);
}

#[test]
fn excludes_version_control_metadata_two_levels_deep() {
    let root = "TREE".to_string();
    let entries = vec![
        dir("TREE/.git/objects", "objects"),
        dir("TREE/core/.git", ".git"),
        dir("TREE/core/glibc", "glibc"),
    ];
    let pkgs = list_packages(&root, &entries);
    assert_eq!(pkgs, vec!["glibc".to_string()]);
}

#[test]
fn excludes_reserved_top_level_directories() {
    let root = "TREE".to_string();
    let entries = vec![
        dir("TREE/groups/base", "base"),
        dir("TREE/assets/logo", "logo"),
        dir("TREE/core/glibc", "glibc"),
    ];
    let pkgs = list_packages(&root, &entries);
    assert_eq!(pkgs, vec!["glibc".to_string()]);
}

#[test]
fn reserved_names_end_at_a_component_boundary() {
    // A top-level directory that merely begins with a reserved name is an
    // ordinary package home.
    let root = "TREE".to_string();
    let entries = vec![
        dir("TREE/groups2/p", "p"),
        dir("TREE/assets-extra/q", "q"),
        dir("TREE/groups/base", "base"),
        dir("TREE/assets/logo", "logo"),
    ];
    let pkgs = list_packages(&root, &entries);
    assert_eq!(pkgs, vec!["p".to_string(), "q".to_string()]);
}

#[test]
fn excludes_plain_files() {
    let root = "TREE".to_string();
    let entries = vec![
        file("TREE/core/README", "README"),
        dir("TREE/core/glibc", "glibc"),
    ];
    let pkgs = list_packages(&root, &entries);
    assert_eq!(pkgs, vec!["glibc".to_string()]);
}

#[test]
fn substring_search() {
    let hay = "TREE/core/.git".to_string();
    assert!(str_has_substring(&hay, &"/.git".to_string()));
    assert!(str_has_substring(&hay, &"".to_string()));
    assert!(!str_has_substring(&hay, &"/.svn".to_string()));
    assert!(!str_has_substring(&"short".to_string(), &"much longer".to_string()));
}

#[test]
fn prefix_check() {
    let hay = "TREE/groups/base".to_string();
    assert!(str_has_prefix(&hay, &"TREE/groups".to_string()));
    assert!(str_has_prefix(&hay, &"".to_string()));
    assert!(!str_has_prefix(&hay, &"TREE/assets".to_string()));
    assert!(!str_has_prefix(&"a".to_string(), &"ab".to_string()));
}
