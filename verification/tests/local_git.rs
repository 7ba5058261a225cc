use vcs_core::local_git::blame::blame_spans;
use vcs_core::local_git::diff::{ChangeKind, LineOrigin};
use vcs_core::local_git::diff_parser::diff_files_checked;
use vcs_core::local_git::status::{status_entries, FileState};
use vcs_core::local_git::url::LocalGitUrl;
use vcs_core::local_git::worktree::worktrees;
use vcs_core::local_git::{command_failure, command_text, LocalGitRepository};
use vcs_core::error::CognitionError;

#[test]
fn diff_reads_paths_hunks_and_counts() {
    let output = "diff --git a/src/a.rs b/src/a.rs\n\
                  index 1111111..2222222 100644\n\
                  --- a/src/a.rs\n\
                  +++ b/src/a.rs\n\
                  @@ -1,2 +1,3 @@\n keep\n-old\n+new\n+more\n";
    let model = LocalGitRepository::open("/repo").diff().compute(output);

    assert_eq!(model.files.len(), 1);
    let file = &model.files[0];
    assert_eq!(file.old_path.as_deref(), Some("src/a.rs"));
    assert_eq!(file.new_path.as_deref(), Some("src/a.rs"));
    assert_eq!(file.change, ChangeKind::Modified);
    assert_eq!(file.additions, 2);
    assert_eq!(file.deletions, 1);
    assert_eq!(file.hunks.len(), 1);
    let hunk = &file.hunks[0];
    assert_eq!((hunk.old_start, hunk.old_lines, hunk.new_start, hunk.new_lines), (1, 2, 1, 3));
    assert_eq!(hunk.lines.len(), 4);
    assert_eq!(hunk.lines[0].origin, LineOrigin::Context);
    assert_eq!((hunk.lines[0].old_line_no, hunk.lines[0].new_line_no), (Some(1), Some(1)));
    assert_eq!(hunk.lines[1].origin, LineOrigin::Deletion);
    assert_eq!(hunk.lines[1].old_line_no, Some(2));
    assert_eq!(hunk.lines[2].origin, LineOrigin::Addition);
    assert_eq!(hunk.lines[2].new_line_no, Some(2));
    assert_eq!(hunk.lines[3].content, "more");
}

#[test]
fn diff_marks_new_and_deleted_files() {
    let output = "diff --git a/new.txt b/new.txt\nnew file mode 100644\n\
                  diff --git a/old.txt b/old.txt\ndeleted file mode 100644\n";
    let model = LocalGitRepository::open("/repo").diff().compute(output);

    assert_eq!(model.files.len(), 2);
    assert_eq!(model.files[0].change, ChangeKind::Added);
    assert_eq!(model.files[0].old_path, None);
    assert_eq!(model.files[1].change, ChangeKind::Deleted);
    assert_eq!(model.files[1].new_path, None);
}

#[test]
fn diff_arguments_follow_the_selection() {
    let diff = LocalGitRepository::open("/repo")
        .diff()
        .range("main", "topic")
        .paths(vec!["src".to_string()]);
    assert_eq!(
        diff.arguments(),
        vec!["diff", "--no-color", "--unified=3", "main...topic", "--", "src"]
    );
}

#[test]
fn blame_spans_follow_headers_and_authors() {
    let output = "abcdef1234567890 1 1 2\nauthor Alice\n\tline one\nabcdef1234567890 2 2\n\tline two\n";
    let spans = blame_spans(output);

    assert_eq!(spans.len(), 2);
    assert_eq!(spans[0].commit, "abcdef1234567890");
    assert_eq!(spans[0].author, "Alice");
    assert_eq!((spans[0].start_line, spans[0].line_count), (1, 2));
    assert_eq!((spans[1].start_line, spans[1].line_count), (2, 1));
}

#[test]
fn status_reads_ordinary_untracked_and_ignored_entries() {
    let output = "1 M. N... 100644 100644 100644 abc def src/a.rs\n? new.txt\n! ignored.log\n2 R. other\n";
    let entries = status_entries(output);

    assert_eq!(entries.len(), 3);
    assert_eq!(entries[0].path, "src/a.rs");
    assert_eq!(entries[0].staged, FileState::Modified);
    assert_eq!(entries[0].unstaged, FileState::Unmodified);
    assert_eq!(entries[1].staged, FileState::Untracked);
    assert_eq!(entries[2].unstaged, FileState::Ignored);
}

#[test]
fn log_reads_commits_and_graph_rows() {
    let repository = LocalGitRepository::open("/repo");
    let commits = repository.log().commits("abc\ndef\n");
    assert_eq!(commits.len(), 2);
    assert_eq!(commits[1].id(), "def");

    let graph = repository
        .log()
        .graph("abc\0p1 p2\0HEAD -> main, tag: v1\ndef\0\0\n");
    assert_eq!(graph.rows.len(), 2);
    assert_eq!(graph.rows[0].commit.id(), "abc");
    assert_eq!(graph.rows[0].parents, vec!["p1", "p2"]);
    assert_eq!(graph.rows[0].refs, vec!["HEAD -> main", "tag: v1"]);
    assert_eq!(graph.rows[1].lane, 1);
    assert!(graph.rows[1].refs.is_empty());
}

#[test]
fn log_arguments_hold_range_page_and_paths() {
    let log = LocalGitRepository::open("/repo")
        .log()
        .between("v1", "v2")
        .limit(10)
        .skip(5)
        .paths(vec!["src".to_string()]);
    assert_eq!(
        log.arguments(false),
        vec!["log", "--format=%H", "v1..v2", "--max-count=10", "--skip=5", "--", "src"]
    );
}

#[test]
fn worktree_listing_is_read_record_by_record() {
    let output = "worktree /repo\nHEAD abc\nbranch refs/heads/main\n\nworktree /repo/wt\nHEAD def\ndetached\nlocked\n";
    let list = worktrees(output);

    assert_eq!(list.len(), 2);
    assert_eq!(list[0].path, "/repo");
    assert_eq!(list[0].branch.as_deref(), Some("main"));
    assert_eq!(list[0].head, "abc");
    assert!(!list[0].locked);
    assert_eq!(list[1].branch, None);
    assert!(list[1].locked);
}

#[test]
fn worktree_add_creates_what_it_was_given() {
    let add = LocalGitRepository::open("/repo")
        .worktrees()
        .add("/tmp/wt")
        .from("topic")
        .detached(true);
    assert_eq!(add.arguments(), vec!["worktree", "add", "--detach", "/tmp/wt", "topic"]);
    let worktree = add.create();
    assert_eq!(worktree.head, "topic");
    assert_eq!(worktree.branch, None);
}

#[test]
fn url_names_its_repository() {
    let url = LocalGitUrl::make("https://github.com/akira-io/core.git/");
    assert!(url.is_github());
    assert_eq!(url.repo_name().as_deref(), Some("core"));
    assert_eq!(
        LocalGitUrl::make("git@example.com:x/y.git.git").repo_name().as_deref(),
        Some("y")
    );
    assert!(!LocalGitUrl::make("git@example.com:x/y.git").is_github());
    assert_eq!(LocalGitUrl::make(".git").repo_name(), None);
}

#[test]
fn merge_base_names_the_missing_reference() {
    let repository = LocalGitRepository::open("/repo");
    assert_eq!(
        repository.merge_base().arguments(),
        Err(CognitionError::InvalidInput("missing merge-base reference".into()))
    );
    assert_eq!(
        repository.merge_base().reference("main").arguments(),
        Err(CognitionError::InvalidInput("missing other merge-base reference".into()))
    );
    assert_eq!(
        repository.merge_base().reference("main").and("topic").arguments(),
        Ok(vec!["merge-base".to_string(), "main".into(), "topic".into()])
    );
}

#[test]
fn remote_url_is_trimmed_and_empty_means_none() {
    let remote = LocalGitRepository::open("/repo").remote("origin");
    assert_eq!(remote.url(Some("  https://x/y.git \n")).as_deref(), Some("https://x/y.git"));
    assert_eq!(remote.url(Some(" \n")), None);
    assert_eq!(remote.url(None), None);
    assert_eq!(
        remote.branch("main").checkout_arguments(),
        vec!["checkout", "-B", "main", "origin/main"]
    );
}

#[test]
fn command_output_is_trimmed() {
    assert_eq!(command_text("  abc\n"), "abc");
    assert_eq!(
        command_failure("fatal: bad\n"),
        CognitionError::InvalidInput("fatal: bad".into())
    );
}

#[test]
fn diff_counts_are_those_of_the_lines_across_hunks() {
    let output = "diff --git a/a b/a\n@@ -1,2 +1,2 @@\n-x\n+y\n z\n@@ -10 +10,2 @@\n+p\n+q\n\
                  diff --git a/b b/b\n@@ -3,2 +3 @@\n-gone\n-also\n";
    let files = diff_files_checked(output).expect("counts fit");
    assert_eq!(files.len(), 2);
    for file in &files {
        let count = |origin: LineOrigin| {
            file.hunks.iter().flat_map(|h| h.lines.iter()).filter(|l| l.origin == origin).count()
        };
        assert_eq!(file.additions, count(LineOrigin::Addition));
        assert_eq!(file.deletions, count(LineOrigin::Deletion));
    }
    assert_eq!((files[0].additions, files[0].deletions), (3, 1));
    assert_eq!((files[1].additions, files[1].deletions), (0, 2));
    assert_eq!(files[0].hunks[1].lines[1].new_line_no, Some(11));
}

#[test]
fn diff_line_numbers_past_usize_are_refused() {
    let output = format!("diff --git a/a b/a\n@@ -1 +{} @@\n+x\n+y\n", usize::MAX);
    assert!(diff_files_checked(&output).is_none());
    let fits = format!("diff --git a/a b/a\n@@ -1 +{} @@\n+x\n", usize::MAX - 1);
    assert_eq!(diff_files_checked(&fits).expect("fits")[0].hunks[0].lines[0].new_line_no, Some(usize::MAX - 1));
}
