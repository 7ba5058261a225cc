use vcs_core::local_git::merge::merge_tree_result;
use vcs_core::error::CognitionError;
use vcs_core::local_git::merge::conflict_text::{conflict_regions, content_kind, is_import_only};
use vcs_core::local_git::merge::{ConflictKind, MergePlan};
use vcs_core::local_git::LocalGitRepository;

fn chars(s: &str) -> Vec<char> {
    s.chars().collect()
}

#[test]
fn regions_take_their_kind_from_their_text() {
    let text = "<<<<<<< ours\n  same  \n=======\nsame\n>>>>>>> theirs\n\
                <<<<<<< ours\nuse a;\n=======\nuse b;\n>>>>>>> theirs\n\
                <<<<<<< ours\nx = 1\n=======\nx = 2\n>>>>>>> theirs\n";
    let regions = conflict_regions("f.rs", text, ConflictKind::Overlap);

    assert_eq!(regions.len(), 3);
    assert_eq!(regions[0].kind, ConflictKind::Whitespace);
    assert_eq!(regions[1].kind, ConflictKind::ImportOrder);
    assert_eq!(regions[2].kind, ConflictKind::Overlap);
    assert_eq!(regions[2].ours, "x = 1");
    assert_eq!(regions[2].base, None);
}

#[test]
fn import_only_needs_a_line_and_only_imports() {
    assert!(is_import_only(&chars("use a;\n\n  import b\nfrom c import d")));
    assert!(!is_import_only(&chars("\n  \n")));
    assert!(!is_import_only(&chars("use a;\nlet x = 1;")));
    assert_eq!(content_kind(&chars("a"), &chars("b")), None);
}

#[test]
fn preview_is_clean_without_conflicts() {
    let merge = LocalGitRepository::open("/repo")
        .merge()
        .base("b")
        .ours("o")
        .theirs("t");
    let preview = merge
        .preview("treeoid\0\0", |_revision: String| Ok(String::new()))
        .unwrap();
    assert!(preview.clean);
    assert!(preview.conflicts.is_empty());
    assert!(preview.merged_files.is_empty());
}

#[test]
fn preview_reports_the_error_of_git_show() {
    let merge = LocalGitRepository::open("/repo")
        .merge()
        .base("b")
        .ours("o")
        .theirs("t");
    let output = "treeoid\0100644 oursblob 2\tsrc/a.rs\0\0";
    let result = merge.preview(output, |_revision: String| {
        Err(CognitionError::InvalidInput("no such object".into()))
    });
    assert_eq!(result, Err(CognitionError::InvalidInput("no such object".into())));
}

#[test]
fn merge_arguments_and_apply() {
    let merge = LocalGitRepository::open("/repo")
        .merge()
        .base("b")
        .ours("o")
        .theirs("t");
    assert_eq!(
        merge.arguments(),
        Ok(vec![
            "merge-tree".to_string(),
            "--write-tree".into(),
            "--messages".into(),
            "-z".into(),
            "--merge-base".into(),
            "b".into(),
            "o".into(),
            "t".into(),
        ])
    );
    assert_eq!(
        LocalGitRepository::open("/repo").merge().arguments(),
        Err(CognitionError::InvalidInput("missing merge base".into()))
    );
    assert_eq!(
        merge.apply(MergePlan),
        Err(CognitionError::UnsupportedOperation("local git merge apply".into()))
    );
}

#[test]
fn merge_tree_result_keeps_output_even_on_failure() {
    assert_eq!(merge_tree_result("tree\0", false, "conflict"), Ok(String::from("tree\0")));
    assert_eq!(merge_tree_result("", true, "ignored"), Ok(String::new()));
    assert_eq!(
        merge_tree_result("", false, "  fatal: bad revision \n"),
        Err(CognitionError::InvalidInput(String::from("fatal: bad revision")))
    );
}
