use grep_directory::fstree::{enumerate, list_files, list_files_recurse, FsTree};

fn file(path: &str) -> FsTree {
    FsTree::File { path: path.to_string() }
}

fn dir(path: &str, entries: Vec<FsTree>) -> FsTree {
    FsTree::Dir { path: path.to_string(), entries }
}

fn sample_tree() -> FsTree {
    dir(
        "d",
        vec![
            file("d/a.txt"),
            dir("d/sub1", vec![file("d/sub1/c.txt"), file("d/sub1/d.txt")]),
            file("d/b.txt"),
            dir("d/sub2", vec![dir("d/sub2/deep", vec![file("d/sub2/deep/e.txt")])]),
        ],
    )
}

#[test]
fn single_file_root_enumerates_to_itself_without_recursion() {
    let root = file("x.txt");
    assert_eq!(enumerate(&root, false), vec!["x.txt".to_string()]);
}

#[test]
fn single_file_root_enumerates_to_itself_with_recursion() {
    let root = file("x.txt");
    assert_eq!(enumerate(&root, true), vec!["x.txt".to_string()]);
}

#[test]
fn non_recursive_enumeration_keeps_only_direct_files() {
    let root = sample_tree();
    assert_eq!(
        enumerate(&root, false),
        vec!["d/a.txt".to_string(), "d/b.txt".to_string()]
    );
}

#[test]
fn recursive_enumeration_descends_depth_first_in_entry_order() {
    let root = sample_tree();
    assert_eq!(
        enumerate(&root, true),
        vec![
            "d/a.txt".to_string(),
            "d/sub1/c.txt".to_string(),
            "d/sub1/d.txt".to_string(),
            "d/b.txt".to_string(),
            "d/sub2/deep/e.txt".to_string(),
        ]
    );
}

#[test]
fn empty_directory_enumerates_to_nothing() {
    let root = dir("d", vec![]);
    assert_eq!(enumerate(&root, false), Vec::<String>::new());
    assert_eq!(enumerate(&root, true), Vec::<String>::new());
}

#[test]
fn directory_of_only_subdirectories_has_no_direct_files() {
    let root = dir("d", vec![dir("d/s", vec![file("d/s/f.txt")])]);
    assert_eq!(enumerate(&root, false), Vec::<String>::new());
    assert_eq!(enumerate(&root, true), vec!["d/s/f.txt".to_string()]);
}

#[test]
fn listing_helpers_agree_with_enumeration_on_directories() {
    let root = sample_tree();
    assert_eq!(list_files(&root), enumerate(&root, false));
    assert_eq!(list_files_recurse(&root), enumerate(&root, true));
}

#[test]
fn listing_helpers_yield_nothing_for_a_file_node() {
    let root = file("x.txt");
    assert_eq!(list_files(&root), Vec::<String>::new());
    assert_eq!(list_files_recurse(&root), Vec::<String>::new());
}
