use gitwise::digest::Digest;
use gitwise::synthesis::{
    completion_text, compose, reply_text, system_instruction, task_options, user_content,
    CompletionOptions, Task, COMMIT_INSTRUCTION, GROUPING_INSTRUCTION, MODEL, NO_CHOICES,
    SUMMARY_INSTRUCTION,
};

fn digest(text: &str) -> Digest {
    Digest { text: text.to_string() }
}

#[test]
fn the_summary_instruction_is_the_base_text() {
    let expected = "You are a helpful AI that summarizes git diffs. Focus on the key changes and their implications. Be concise but informative.";
    assert_eq!(SUMMARY_INSTRUCTION, expected);
    assert_eq!(system_instruction(Task::Summarize, None), expected);
    assert_eq!(system_instruction(Task::HistoryEntry, None), expected);
}

#[test]
fn steering_is_appended_to_the_summary_instruction() {
    let expected = "You are a helpful AI that summarizes git diffs. Focus on the key changes and their implications. Be concise but informative.. Additional instruction: focus on security";
    assert_eq!(system_instruction(Task::Summarize, Some("focus on security")), expected);
    assert_eq!(system_instruction(Task::HistoryEntry, Some("focus on security")), expected);
}

#[test]
fn steering_leaves_the_other_instructions_alone() {
    assert_eq!(system_instruction(Task::CommitMessage, Some("x")), COMMIT_INSTRUCTION);
    assert_eq!(system_instruction(Task::CommitMessage, None), COMMIT_INSTRUCTION);
    assert_eq!(system_instruction(Task::GroupChanges, Some("x")), GROUPING_INSTRUCTION);
    assert_eq!(system_instruction(Task::GroupChanges, None), GROUPING_INSTRUCTION);
}

#[test]
fn the_commit_instruction_spells_out_the_shape_of_a_message() {
    let rows: Vec<&str> = COMMIT_INSTRUCTION.split('\n').collect();
    assert_eq!(rows.len(), 31);
    assert_eq!(
        rows[0],
        "You are a helpful AI that generates git commit messages. Follow these rules strictly:"
    );
    assert_eq!(rows[1], "1. Format must be:");
    assert_eq!(rows[2], "- First line: Short summary in imperative mood, max 50 chars");
    assert_eq!(rows[3], "- Blank line");
    assert_eq!(rows[4], "- Detailed description wrapped at 72 chars");
    assert_eq!(rows[6], "- Use imperative mood ('Add' not 'Added')");
    assert_eq!(rows[7], "- Not end with a period");
    assert_eq!(rows[8], "- Be max 50 characters");
    assert_eq!(rows[12], "- Explain WHY the changes in the diff were made");
    assert_eq!(rows[13], "- Wrap text at 72 characters");
    assert_eq!(rows[16], "- Include affected files or components");
    assert_eq!(rows[18], "Add user authentication to API endpoints");
    assert_eq!(rows[19], "");
    assert_eq!(rows[23], "");
    assert_eq!(rows[24], "Modified files:");
    assert_eq!(rows[30], "- Be specific about what files or components changed");
    assert_eq!(COMMIT_INSTRUCTION.len(), 1130);
}

#[test]
fn the_grouping_instruction_asks_for_one_group_and_bare_json() {
    assert!(GROUPING_INSTRUCTION.starts_with(
        "You are an expert Git user who thinks holistically about changes. FIRST AND MOST IMPORTANT RULE: If all the changes could reasonably be part of one development effort, return them as a single group. "
    ));
    assert!(GROUPING_INSTRUCTION.contains(
        " IMPORTANT: Your response must be a valid JSON array where each element is an array of file paths. Example response format: [[\"file1.rs\", \"file2.rs\", \"test1.rs\", \"mod.rs\", \"config.toml\", \"docs.md\"]] Note how"
    ));
    assert!(GROUPING_INSTRUCTION.ends_with(" Only output the JSON array, no other text or explanations."));
    assert!(!GROUPING_INSTRUCTION.contains('\n'));
    assert!(!GROUPING_INSTRUCTION.contains("  "));
    assert_eq!(GROUPING_INSTRUCTION.len(), 1671);
}

#[test]
fn the_content_wraps_the_digest_in_a_fence() {
    assert_eq!(
        user_content(Task::Summarize, None, "+a\n"),
        "Please summarize this git diff:\n```\n+a\n\n```"
    );
    assert_eq!(
        user_content(Task::HistoryEntry, Some("ignored here"), "-b"),
        "Please summarize this git diff:\n```\n-b\n```"
    );
    assert_eq!(
        user_content(Task::CommitMessage, None, "+ a (f)\n"),
        "Analyze these changes and create a commit summary:\n```\n+ a (f)\n\n```"
    );
}

#[test]
fn the_grouping_content_names_the_focus() {
    assert_eq!(
        user_content(Task::GroupChanges, None, "[Staged] +a (f)\n"),
        "Group these changes by feature (custom focus: none):\n```\n[Staged] +a (f)\n\n```"
    );
    assert_eq!(
        user_content(Task::GroupChanges, Some("tests"), "[Staged] +a (f)\n"),
        "Group these changes by feature (custom focus: tests):\n```\n[Staged] +a (f)\n\n```"
    );
}

#[test]
fn each_task_has_its_options() {
    assert_eq!(
        task_options(Task::Summarize),
        CompletionOptions { temperature_tenths: 7, max_output_tokens: 512 }
    );
    assert_eq!(task_options(Task::HistoryEntry), task_options(Task::Summarize));
    assert_eq!(
        task_options(Task::CommitMessage),
        CompletionOptions { temperature_tenths: 3, max_output_tokens: 300 }
    );
    assert_eq!(
        task_options(Task::GroupChanges),
        CompletionOptions { temperature_tenths: 3, max_output_tokens: 1000 }
    );
    assert_eq!(MODEL, "gpt-3.5-turbo");
}

#[test]
fn temperature_tenths_convert_to_the_fractions_meant() {
    assert_eq!(task_options(Task::Summarize).temperature_tenths as f32 / 10.0, 0.7f32);
    assert_eq!(task_options(Task::CommitMessage).temperature_tenths as f32 / 10.0, 0.3f32);
}

#[test]
fn compose_puts_instruction_content_and_options_together() {
    let request = compose(Task::GroupChanges, Some("docs"), &digest("[Staged] +a (f)\n"));
    assert_eq!(request.system_instruction, GROUPING_INSTRUCTION);
    assert_eq!(
        request.user_content,
        "Group these changes by feature (custom focus: docs):\n```\n[Staged] +a (f)\n\n```"
    );
    assert_eq!(request.options, task_options(Task::GroupChanges));
    let request = compose(Task::Summarize, Some("be brief"), &digest("+x"));
    assert_eq!(request.system_instruction, system_instruction(Task::Summarize, Some("be brief")));
    assert_eq!(request.user_content, "Please summarize this git diff:\n```\n+x\n```");
    assert_eq!(request.options, task_options(Task::Summarize));
}

#[test]
fn an_answer_with_text_is_taken_as_it_is() {
    for task in [Task::Summarize, Task::CommitMessage, Task::GroupChanges, Task::HistoryEntry] {
        assert_eq!(completion_text(task, Some("anything at all.".to_string())), "anything at all.");
        assert_eq!(completion_text(task, Some(String::new())), "");
    }
}

#[test]
fn an_answer_without_text_gets_the_fallback_of_its_task() {
    assert_eq!(completion_text(Task::Summarize, None), "No summary available.");
    assert_eq!(completion_text(Task::HistoryEntry, None), "No summary available.");
    assert_eq!(completion_text(Task::CommitMessage, None), "Failed to generate commit message.");
    assert_eq!(completion_text(Task::GroupChanges, None), "[]");
}

#[test]
fn a_reply_without_choices_has_no_text() {
    for task in [Task::Summarize, Task::CommitMessage, Task::GroupChanges, Task::HistoryEntry] {
        assert_eq!(reply_text(task, vec![]), None);
    }
    assert_eq!(NO_CHOICES, "The service replied without any choice.");
}

#[test]
fn the_first_choice_of_a_reply_decides() {
    let choices = || vec![Some("first".to_string()), Some("second".to_string()), None];
    for task in [Task::Summarize, Task::CommitMessage, Task::GroupChanges, Task::HistoryEntry] {
        assert_eq!(reply_text(task, choices()), Some("first".to_string()));
        assert_eq!(reply_text(task, vec![Some(String::new())]), Some(String::new()));
    }
}

#[test]
fn a_first_choice_without_text_gets_the_fallback() {
    let choices = || vec![None, Some("second".to_string())];
    assert_eq!(reply_text(Task::Summarize, choices()), Some("No summary available.".to_string()));
    assert_eq!(reply_text(Task::HistoryEntry, choices()), Some("No summary available.".to_string()));
    assert_eq!(
        reply_text(Task::CommitMessage, choices()),
        Some("Failed to generate commit message.".to_string())
    );
    assert_eq!(reply_text(Task::GroupChanges, vec![None]), Some("[]".to_string()));
}
