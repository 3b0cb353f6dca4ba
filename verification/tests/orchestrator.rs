use gitwise::changeset::{Changeset, FileDelta, LineKind, LineRecord};
use gitwise::grouping::{GroupingResult, ValidationError};
use gitwise::identity::CommitIdentity;
use gitwise::orchestrator::{
    diff_report, diff_source, finish_analysis, history_entry, history_report, known_paths, plan,
    plan_analysis, plan_commit, plan_diff, plan_history_entry, AnalysisPlan, DiffSource, Failure,
    Plan,
};
use gitwise::digest::Digest;
use gitwise::resolver::ResolutionError;
use gitwise::synthesis::{
    task_options, ServiceRequest, Task, COMMIT_INSTRUCTION, GROUPING_INSTRUCTION,
    SUMMARY_INSTRUCTION,
};

fn file(path: &str, lines: Vec<(LineKind, &str)>) -> FileDelta {
    FileDelta {
        path: Some(path.to_string()),
        binary: false,
        lines: lines
            .into_iter()
            .map(|(kind, text)| LineRecord { kind, text: text.to_string() })
            .collect(),
    }
}

fn staged() -> Changeset {
    Changeset {
        files: vec![file(
            "a.txt",
            vec![(LineKind::Removed, "hello\n"), (LineKind::Added, "world\n"), (LineKind::Context, "!\n")],
        )],
    }
}

fn unstaged() -> Changeset {
    Changeset { files: vec![file("b.txt", vec![(LineKind::Added, "draft\n")])] }
}

fn empty() -> Changeset {
    Changeset { files: vec![] }
}

fn nothing(words: &str) -> Plan {
    Plan::NothingToDo(words.to_string())
}

fn sample_id() -> CommitIdentity {
    CommitIdentity::from_bytes([
        0x01, 0x23, 0x45, 0x67, 0x89, 0xab, 0xcd, 0xef, 0, 0, 0, 0, 0, 0, 0, 0, 0, 0, 0, 0,
    ])
}

#[test]
fn the_staged_flag_wins_over_references() {
    assert_eq!(diff_source("HEAD", None, true), DiffSource::Staged);
    assert_eq!(diff_source("main", Some("dev"), true), DiffSource::Staged);
}

#[test]
fn without_the_flag_one_or_two_references_are_resolved() {
    assert_eq!(
        diff_source("HEAD", None, false),
        DiffSource::Between { from: "HEAD".to_string(), to: None }
    );
    assert_eq!(
        diff_source("v1", Some("v2"), false),
        DiffSource::Between { from: "v1".to_string(), to: Some("v2".to_string()) }
    );
}

#[test]
fn an_empty_digest_is_never_sent() {
    let empty_digest = Digest { text: String::new() };
    assert_eq!(plan(Task::Summarize, Some("x"), &empty_digest), nothing("No summary available."));
    assert_eq!(plan(Task::HistoryEntry, Some("x"), &empty_digest), nothing("No summary available."));
    assert_eq!(plan(Task::CommitMessage, Some("x"), &empty_digest), nothing("No changes detected."));
    assert_eq!(plan(Task::GroupChanges, Some("x"), &empty_digest), nothing("[]"));
    assert_eq!(plan_diff(&empty(), None), nothing("No summary available."));
    assert_eq!(plan_diff(&empty(), Some("be brief")), nothing("No summary available."));
    assert_eq!(plan_history_entry(&empty()), nothing("No summary available."));
    assert_eq!(plan_commit(&empty()), nothing("No changes detected."));
    assert_eq!(
        plan_analysis(&empty(), &empty(), None),
        AnalysisPlan::Finished(GroupingResult::empty())
    );
    assert_eq!(
        plan_analysis(&empty(), &empty(), Some("docs")),
        AnalysisPlan::Finished(GroupingResult { groups: vec![] })
    );
}

#[test]
fn a_digest_with_text_is_sent_with_the_request_of_its_task() {
    let digest = Digest { text: "+x".to_string() };
    match plan(Task::CommitMessage, None, &digest) {
        Plan::Ask(request) => {
            assert_eq!(request.system_instruction, COMMIT_INSTRUCTION);
            assert_eq!(
                request.user_content,
                "Analyze these changes and create a commit summary:\n```\n+x\n```"
            );
            assert_eq!(request.options, task_options(Task::CommitMessage));
        }
        other => panic!("unexpected plan {:?}", other),
    }
}

#[test]
fn the_diff_command_sends_every_line() {
    let expected = ServiceRequest {
        system_instruction: SUMMARY_INSTRUCTION.to_string(),
        user_content: "Please summarize this git diff:\n```\n-hello\n+world\n !\n\n```".to_string(),
        options: task_options(Task::Summarize),
    };
    assert_eq!(plan_diff(&staged(), None), Plan::Ask(expected.clone()));
    assert_eq!(plan_history_entry(&staged()), Plan::Ask(expected));
}

#[test]
fn the_diff_command_passes_steering_on() {
    match plan_diff(&staged(), Some("mind the API")) {
        Plan::Ask(request) => assert_eq!(
            request.system_instruction,
            format!("{}. Additional instruction: mind the API", SUMMARY_INSTRUCTION)
        ),
        other => panic!("unexpected plan {:?}", other),
    }
}

#[test]
fn the_commit_command_sends_changed_lines_with_their_file() {
    let expected = ServiceRequest {
        system_instruction: COMMIT_INSTRUCTION.to_string(),
        user_content: "Analyze these changes and create a commit summary:\n```\n- hello\n (a.txt)\n+ world\n (a.txt)\n\n```".to_string(),
        options: task_options(Task::CommitMessage),
    };
    assert_eq!(plan_commit(&staged()), Plan::Ask(expected));
}

#[test]
fn the_commit_command_stops_when_only_context_is_staged() {
    let context_only = Changeset { files: vec![file("a", vec![(LineKind::Context, "same\n")])] };
    assert_eq!(plan_commit(&context_only), nothing("No changes detected."));
}

#[test]
fn the_analysis_sends_staged_changes_before_unstaged_ones() {
    let expected = ServiceRequest {
        system_instruction: GROUPING_INSTRUCTION.to_string(),
        user_content: "Group these changes by feature (custom focus: none):\n```\n[Staged] -hello\n (a.txt)\n[Staged] +world\n (a.txt)\n[Unstaged] +draft\n (b.txt)\n\n```".to_string(),
        options: task_options(Task::GroupChanges),
    };
    assert_eq!(plan_analysis(&staged(), &unstaged(), None), AnalysisPlan::Ask(expected));
}

#[test]
fn the_analysis_names_the_focus_and_works_with_one_side_only() {
    match plan_analysis(&empty(), &unstaged(), Some("docs")) {
        AnalysisPlan::Ask(request) => assert_eq!(
            request.user_content,
            "Group these changes by feature (custom focus: docs):\n```\n[Unstaged] +draft\n (b.txt)\n\n```"
        ),
        other => panic!("unexpected plan {:?}", other),
    }
}

#[test]
fn the_known_paths_are_those_of_both_changesets() {
    assert_eq!(known_paths(&staged(), &unstaged()), vec!["a.txt".to_string(), "b.txt".to_string()]);
    assert_eq!(known_paths(&empty(), &unstaged()), vec!["b.txt".to_string()]);
    assert_eq!(known_paths(&empty(), &empty()), Vec::<String>::new());
}

#[test]
fn the_analysis_accepts_groups_of_files_that_changed() {
    let verdict = finish_analysis(Some(r#"[["b.txt"],["a.txt"]]"#.to_string()), &staged(), &unstaged());
    assert_eq!(
        verdict,
        Ok(GroupingResult { groups: vec![vec!["b.txt".to_string()], vec!["a.txt".to_string()]] })
    );
}

#[test]
fn the_analysis_turns_invented_files_down() {
    let raw = r#"[["a.txt","c.txt"]]"#;
    assert_eq!(
        finish_analysis(Some(raw.to_string()), &staged(), &unstaged()),
        Err(ValidationError::UnknownFileInGroup { path: "c.txt".to_string(), response: raw.to_string() })
    );
    assert_eq!(
        finish_analysis(Some(r#"[["b.txt"]]"#.to_string()), &staged(), &empty()),
        Err(ValidationError::UnknownFileInGroup {
            path: "b.txt".to_string(),
            response: r#"[["b.txt"]]"#.to_string()
        })
    );
}

#[test]
fn the_analysis_turns_prose_down() {
    let raw = "Sure! Here is the grouping you asked for.";
    assert_eq!(
        finish_analysis(Some(raw.to_string()), &staged(), &unstaged()),
        Err(ValidationError::MalformedResponse { response: raw.to_string() })
    );
}

#[test]
fn an_answer_without_text_means_no_groups() {
    assert_eq!(finish_analysis(None, &staged(), &unstaged()), Ok(GroupingResult::empty()));
}

#[test]
fn test_diff_summary() {
    // A diff without deltas: the service is not asked, and the summary says so.
    let summary = match plan_diff(&empty(), None) {
        Plan::NothingToDo(words) => words,
        other => panic!("unexpected plan {:?}", other),
    };
    assert!(summary.contains("No summary available."));
    assert_eq!(diff_report(Some(summary)), "Changes Summary:\nNo summary available.\n");
}

#[test]
fn an_answer_without_text_is_reported_as_no_summary() {
    assert_eq!(diff_report(None), "Changes Summary:\nNo summary available.\n");
}

#[test]
fn the_diff_report_shows_the_answer_under_its_heading() {
    assert_eq!(
        diff_report(Some("Swaps the greeting.".to_string())),
        "Changes Summary:\nSwaps the greeting.\n"
    );
}

#[test]
fn a_history_entry_shows_short_identity_subject_and_summary() {
    assert_eq!(
        history_entry(&sample_id(), Some("Fix typo"), Some("Corrects one word.".to_string())),
        "Commit 0123456 (Fix typo):\nCorrects one word.\n"
    );
}

#[test]
fn a_history_entry_has_fallbacks_for_subject_and_summary() {
    assert_eq!(
        history_entry(&sample_id(), None, None),
        "Commit 0123456 (No summary):\nNo summary available.\n"
    );
}

#[test]
fn the_history_report_separates_entries_and_nothing_else() {
    let entries = vec!["one\n".to_string(), "two\n".to_string(), "three\n".to_string()];
    assert_eq!(
        history_report(&entries),
        "Git History Summary:\n\none\n\n\n---\n\n\ntwo\n\n\n---\n\n\nthree\n\n"
    );
}

#[test]
fn the_history_report_of_one_entry_has_no_separator() {
    assert_eq!(history_report(&vec!["only\n".to_string()]), "Git History Summary:\n\nonly\n\n");
}

#[test]
fn the_history_report_of_no_entry_is_the_heading() {
    assert_eq!(history_report(&vec![]), "Git History Summary:\n\n");
}

#[test]
fn failures_are_shown_in_the_words_of_their_source() {
    let unresolved = Failure::Resolution(ResolutionError::ReferenceNotResolved {
        reference: "nope".to_string(),
    });
    assert_eq!(unresolved.message(), "Could not resolve git reference: nope");
    let backend = Failure::Resolution(ResolutionError::Collaborator { message: "odb".to_string() });
    assert_eq!(backend.message(), "odb");
    assert_eq!(Failure::Extraction("corrupt object".to_string()).message(), "corrupt object");
    assert_eq!(Failure::Service("timed out".to_string()).message(), "timed out");
    let malformed = Failure::Validation(ValidationError::MalformedResponse { response: "??".to_string() });
    assert_eq!(
        malformed.message(),
        "Failed to parse AI response as JSON array of file groups. Response was: ??"
    );
    let invented = Failure::Validation(ValidationError::UnknownFileInGroup {
        path: "q.rs".to_string(),
        response: "[[\"q.rs\"]]".to_string(),
    });
    assert_eq!(
        invented.message(),
        "AI response groups a file that is not among the changes: q.rs. Response was: [[\"q.rs\"]]"
    );
}
