use std::cell::RefCell;
use vcs_core::error::CognitionError;
use vcs_core::error::CognitionResult;
use vcs_core::local_git::merge::tree_output::MergeTreeOutput;
use vcs_core::local_git::merge::ConflictKind;

fn tree_with_stages(paths: &[&str]) -> String {
    let mut out = String::from("treeoid");
    for path in paths {
        out.push('\0');
        out.push_str(&format!(
            "100644 baseblob 1\t{path}\0100644 oursblob 2\t{path}\0100644 theirsblob 3\t{path}"
        ));
    }
    out.push('\0');
    out.push('\0');
    out
}

#[test]
fn parse_collects_stage_paths_into_merged_files() {
    let raw = tree_with_stages(&["src/a.rs", "src/b.rs"]);
    let parsed = MergeTreeOutput::parse(&raw);

    let files: Vec<String> = parsed.merged_files();
    assert!(files.contains(&String::from("src/a.rs")));
    assert!(files.contains(&String::from("src/b.rs")));
}

#[test]
fn kind_detects_add_add_message_near_path() {
    let mut raw = tree_with_stages(&["src/a.rs"]);
    raw.push_str("src/a.rs\0CONFLICT (add/add)\0both sides added\0");
    let parsed = MergeTreeOutput::parse(&raw);

    assert_eq!(parsed.kind("src/a.rs"), ConflictKind::AddAdd);
}

#[test]
fn kind_detects_modify_delete_message_near_path() {
    let mut raw = tree_with_stages(&["src/a.rs"]);
    raw.push_str("src/a.rs\0CONFLICT (modify/delete)\0one side deleted\0");
    let parsed = MergeTreeOutput::parse(&raw);

    assert_eq!(parsed.kind("src/a.rs"), ConflictKind::DeleteModify);
}

#[test]
fn kind_defaults_to_overlap_when_path_absent_from_messages() {
    let raw = tree_with_stages(&["src/a.rs"]);
    let parsed = MergeTreeOutput::parse(&raw);

    assert_eq!(parsed.kind("src/a.rs"), ConflictKind::Overlap);
}

#[test]
fn conflicts_returns_every_region_with_base_propagated() -> CognitionResult<()> {
    let raw = tree_with_stages(&["src/a.rs"]);
    let parsed = MergeTreeOutput::parse(&raw);

    let merged = String::from(
        "ctx\n\
         <<<<<<< ours\nours-1\n=======\ntheirs-1\n>>>>>>> theirs\n\
         middle\n\
         <<<<<<< ours\nours-2\n=======\ntheirs-2\n>>>>>>> theirs\n",
    );

    let regions = parsed.conflicts(|revision: String| {
        if revision == format!("{}:{}", "treeoid", "src/a.rs") {
            return Ok(merged.clone());
        }

        if revision == "baseblob" {
            return Ok("base-text".into());
        }

        Ok(String::new())
    })?;

    assert_eq!(regions.len(), 2);
    for region in &regions {
        assert_eq!(region.base.as_deref(), Some("base-text"));
        assert_eq!(region.path, String::from("src/a.rs"));
    }
    assert_eq!(regions[0].ours, "ours-1");
    assert_eq!(regions[1].theirs, "theirs-2");
    Ok(())
}

#[test]
fn conflicts_return_the_error_of_the_first_failing_request() {
    let raw = tree_with_stages(&["src/a.rs", "src/b.rs"]);
    let parsed = MergeTreeOutput::parse(&raw);

    let asked = RefCell::new(Vec::new());
    let all_fail = parsed.conflicts(|revision: String| {
        asked.borrow_mut().push(revision.clone());
        Err(CognitionError::InvalidInput(revision))
    });
    assert_eq!(all_fail, Err(CognitionError::InvalidInput("treeoid:src/a.rs".into())));
    assert_eq!(asked.borrow().as_slice(), ["treeoid:src/a.rs"]);

    let base_fails = parsed.conflicts(|revision: String| {
        if revision.starts_with("treeoid:") {
            Ok("no markers".into())
        } else {
            Err(CognitionError::InvalidInput(revision))
        }
    });
    assert_eq!(base_fails, Err(CognitionError::InvalidInput("baseblob".into())));

    let theirs_fails = parsed.conflicts(|revision: String| {
        if revision == "theirsblob" {
            Err(CognitionError::InvalidInput(revision))
        } else {
            Ok("text".into())
        }
    });
    assert_eq!(theirs_fails, Err(CognitionError::InvalidInput("theirsblob".into())));
}

#[test]
fn every_conflicted_path_gives_a_region() {
    let raw = tree_with_stages(&["src/b.rs", "src/a.rs", "src/b.rs"]);
    let parsed = MergeTreeOutput::parse(&raw);
    assert_eq!(parsed.merged_files(), vec![String::from("src/a.rs"), String::from("src/b.rs")]);
    let regions = parsed.conflicts(|_revision: String| Ok(String::from("same"))).expect("answered");
    assert_eq!(regions.len(), 2);
    assert_eq!(regions[0].path, "src/a.rs");
    assert_eq!(regions[1].path, "src/b.rs");

    let empty = MergeTreeOutput::parse("treeoid\0\0");
    assert!(empty.merged_files().is_empty());
    assert!(empty.conflicts(|_revision: String| Ok(String::new())).expect("nothing asked").is_empty());
    assert_eq!(empty.first_unfit_window(), None);
}
