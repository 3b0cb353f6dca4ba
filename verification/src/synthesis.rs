//! The contract with the text-generation service: which instruction and which
//! content go out for each task, with which options, and how an answer that
//! carries no text is read.
//!
//! Sending the request is the caller's business. A transport failure is the
//! caller's to surface; nothing here retries.

use vstd::prelude::*;
use vstd::string::*;
use crate::digest::Digest;

verus! {

/// What the service is told before it summarizes a digest.
pub const SUMMARY_INSTRUCTION: &'static str =
    "You are a helpful AI that summarizes git diffs. Focus on the key changes and their \
    implications. Be concise but informative.";

/// What joins the summary instruction and a caller's steering.
pub const STEERING_JOINT: &'static str = ". Additional instruction: ";

/// What the service is told before it writes a commit message. The shape of
/// the message is asked for in words only; nothing checks that the answer obeys.
pub const COMMIT_INSTRUCTION: &'static str =
    "You are a helpful AI that generates git commit messages. Follow these rules strictly:\n\
    1. Format must be:\n\
    - First line: Short summary in imperative mood, max 50 chars\n\
    - Blank line\n\
    - Detailed description wrapped at 72 chars\n\
    2. First line must:\n\
    - Use imperative mood ('Add' not 'Added')\n\
    - Not end with a period\n\
    - Be max 50 characters\n\
    - Accurately describe the main change in the diff\n\
    3. Description must:\n\
    - Start with a blank line after the summary\n\
    - Explain WHY the changes in the diff were made\n\
    - Wrap text at 72 characters\n\
    - Use proper punctuation\n\
    - Be specific to the actual changes shown\n\
    - Include affected files or components\n\
    4. Example:\n\
    Add user authentication to API endpoints\n\
    \n\
    Implements JWT-based authentication to secure all API endpoints in\n\
    auth.rs. This change is required for GDPR compliance and improves\n\
    our overall security posture by preventing unauthorized access.\n\
    \n\
    Modified files:\n\
    - auth.rs: Added JWT verification\n\
    - main.rs: Integrated auth middleware\n\
    5. Important:\n\
    - Focus ONLY on the changes shown in the diff\n\
    - Do not make up changes that aren't in the diff\n\
    - Be specific about what files or components changed";

/// What the service is told before it sorts changed files into groups.
pub const GROUPING_INSTRUCTION: &'static str =
    "You are an expert Git user who thinks holistically about changes. FIRST AND MOST \
    IMPORTANT RULE: If all the changes could reasonably be part of one development effort, \
    return them as a single group. Default to this approach unless there are COMPLETELY \
    unrelated changes. When deciding whether to group ALL changes together, consider: - Are \
    they part of the same general development session? - Could they be described under one \
    high-level goal? - Do they affect related areas of the codebase? - Would they make sense \
    to review together? If YES to ANY of these, PUT EVERYTHING IN ONE GROUP. Only split into \
    multiple groups if you find changes that are: 1. Completely different features with zero \
    relationship 2. Fixes for entirely separate bugs 3. Changes that absolutely cannot be \
    described in one commit message Examples of changes that should be ONE group: - A \
    feature implementation + its tests + docs + config changes - Multiple refactorings \
    across the codebase - A mix of bug fixes in related components - Frontend changes + \
    related backend updates - Multiple improvements to similar functionality Remember: - \
    STRONGLY PREFER one large group over multiple small ones - If unsure, put everything in \
    one group - It's better to group too much than too little - Only split if it would be \
    IMPOSSIBLE to describe the changes together IMPORTANT: Your response must be a valid \
    JSON array where each element is an array of file paths. Example response format: \
    [[\"file1.rs\", \"file2.rs\", \"test1.rs\", \"mod.rs\", \"config.toml\", \"docs.md\"]] \
    Note how the example shows everything in ONE group - this is what we usually want! Only \
    output the JSON array, no other text or explanations.";

/// The model that requests are addressed to.
pub const MODEL: &'static str = "gpt-3.5-turbo";

/// What opens the content of a summary request; the digest follows.
pub const SUMMARY_OPENING: &'static str = "Please summarize this git diff:\n```\n";

/// What opens the content of a commit-message request; the digest follows.
pub const COMMIT_OPENING: &'static str =
    "Analyze these changes and create a commit summary:\n```\n";

/// What opens the content of a grouping request; the focus follows.
pub const GROUPING_OPENING: &'static str = "Group these changes by feature (custom focus: ";

/// What stands between the focus and the digest of a grouping request.
pub const FOCUS_CLOSING: &'static str = "):\n```\n";

/// The focus of a grouping request when the caller names none.
pub const NO_FOCUS: &'static str = "none";

/// What closes the content of every request, after the digest.
pub const CONTENT_CLOSING: &'static str = "\n```";

/// How an answer without text to a summary request is read.
pub const NO_SUMMARY: &'static str = "No summary available.";

/// How an answer without text to a commit-message request is read.
pub const NO_COMMIT_MESSAGE: &'static str = "Failed to generate commit message.";

/// How an answer without text to a grouping request is read: no groups.
pub const NO_GROUPS: &'static str = "[]";

/// What is surfaced when a reply holds no choice at all.
pub const NO_CHOICES: &'static str = "The service replied without any choice.";

/// What the service is asked to do.
#[derive(Clone, Copy, Debug, PartialEq, Eq, Structural)]
pub enum Task {
    /// Describe a digest and what it implies.
    Summarize,
    /// Write a commit message for a digest.
    CommitMessage,
    /// Sort the changed files into groups, one per effort.
    GroupChanges,
    /// Describe one commit of a history walk; handled as a summary.
    HistoryEntry,
}

/// Sampling options of a request. The temperature is held in tenths, so that
/// 7 stands for 0.7.
#[derive(Clone, Copy, Debug, PartialEq, Eq, Structural)]
pub struct CompletionOptions {
    pub temperature_tenths: u8,
    pub max_output_tokens: u16,
}

/// One request to the service.
#[derive(Clone, Debug, PartialEq, Eq)]
pub struct ServiceRequest {
    pub system_instruction: String,
    pub user_content: String,
    pub options: CompletionOptions,
}

/// Mathematical content of a [`ServiceRequest`].
pub struct ServiceRequestModel {
    pub system_instruction: Seq<char>,
    pub user_content: Seq<char>,
    pub options: CompletionOptions,
}

impl View for ServiceRequest {
    type V = ServiceRequestModel;

    open spec fn view(&self) -> ServiceRequestModel {
        ServiceRequestModel {
            system_instruction: self.system_instruction@,
            user_content: self.user_content@,
            options: self.options,
        }
    }
}

/// An optional piece of text as a mathematical value.
pub open spec fn text_model(text: Option<&str>) -> Option<Seq<char>> {
    match text {
        Some(t) => Some(t@),
        None => None,
    }
}

/// Whether the task is answered with a summary.
pub open spec fn is_summary(task: Task) -> bool {
    task == Task::Summarize || task == Task::HistoryEntry
}

/// The options that go with a task.
pub open spec fn options_for(task: Task) -> CompletionOptions {
    match task {
        Task::Summarize | Task::HistoryEntry => CompletionOptions {
            temperature_tenths: 7,
            max_output_tokens: 512,
        },
        Task::CommitMessage => CompletionOptions { temperature_tenths: 3, max_output_tokens: 300 },
        Task::GroupChanges => CompletionOptions { temperature_tenths: 3, max_output_tokens: 1000 },
    }
}

/// The system instruction of a task. Only a summary takes the caller's
/// steering into the instruction.
pub open spec fn instruction_text(task: Task, steering: Option<Seq<char>>) -> Seq<char> {
    match task {
        Task::Summarize | Task::HistoryEntry => match steering {
            Some(s) => SUMMARY_INSTRUCTION@ + STEERING_JOINT@ + s,
            None => SUMMARY_INSTRUCTION@,
        },
        Task::CommitMessage => COMMIT_INSTRUCTION@,
        Task::GroupChanges => GROUPING_INSTRUCTION@,
    }
}

/// The user content of a task: the digest between an opening and a closing.
/// A grouping request names the caller's steering as its focus.
pub open spec fn content_text(task: Task, steering: Option<Seq<char>>, digest: Seq<char>) -> Seq<
    char,
> {
    match task {
        Task::Summarize | Task::HistoryEntry => SUMMARY_OPENING@ + digest + CONTENT_CLOSING@,
        Task::CommitMessage => COMMIT_OPENING@ + digest + CONTENT_CLOSING@,
        Task::GroupChanges => GROUPING_OPENING@ + (match steering {
            Some(s) => s,
            None => NO_FOCUS@,
        }) + FOCUS_CLOSING@ + digest + CONTENT_CLOSING@,
    }
}

/// The request that a task, a steering and a digest amount to.
pub open spec fn request_for(task: Task, steering: Option<Seq<char>>, digest: Seq<char>)
    -> ServiceRequestModel {
    ServiceRequestModel {
        system_instruction: instruction_text(task, steering),
        user_content: content_text(task, steering, digest),
        options: options_for(task),
    }
}

/// How an answer without text is read.
pub open spec fn fallback_text(task: Task) -> Seq<char> {
    match task {
        Task::Summarize | Task::HistoryEntry => NO_SUMMARY@,
        Task::CommitMessage => NO_COMMIT_MESSAGE@,
        Task::GroupChanges => NO_GROUPS@,
    }
}

/// The options that go with a task.
pub fn task_options(task: Task) -> (options: CompletionOptions)
    ensures
        options == options_for(task),
{
    match task {
        Task::Summarize | Task::HistoryEntry => CompletionOptions {
            temperature_tenths: 7,
            max_output_tokens: 512,
        },
        Task::CommitMessage => CompletionOptions { temperature_tenths: 3, max_output_tokens: 300 },
        Task::GroupChanges => CompletionOptions { temperature_tenths: 3, max_output_tokens: 1000 },
    }
}

/// The system instruction of a task.
pub fn system_instruction(task: Task, steering: Option<&str>) -> (text: String)
    ensures
        text@ == instruction_text(task, text_model(steering)),
{
    match task {
        Task::Summarize | Task::HistoryEntry => {
            let mut text = String::from_str(SUMMARY_INSTRUCTION);
            match steering {
                Some(s) => {
                    text.append(STEERING_JOINT);
                    text.append(s);
                },
                None => {},
            }
            text
        },
        Task::CommitMessage => String::from_str(COMMIT_INSTRUCTION),
        Task::GroupChanges => String::from_str(GROUPING_INSTRUCTION),
    }
}

/// The user content of a task.
pub fn user_content(task: Task, steering: Option<&str>, digest: &str) -> (text: String)
    ensures
        text@ == content_text(task, text_model(steering), digest@),
{
    let mut text = match task {
        Task::Summarize | Task::HistoryEntry => String::from_str(SUMMARY_OPENING),
        Task::CommitMessage => String::from_str(COMMIT_OPENING),
        Task::GroupChanges => {
            let mut opening = String::from_str(GROUPING_OPENING);
            match steering {
                Some(s) => opening.append(s),
                None => opening.append(NO_FOCUS),
            }
            opening.append(FOCUS_CLOSING);
            opening
        },
    };
    text.append(digest);
    text.append(CONTENT_CLOSING);
    text
}

/// Puts the request for a task together.
pub fn compose(task: Task, steering: Option<&str>, digest: &Digest) -> (request: ServiceRequest)
    ensures
        request@ == request_for(task, text_model(steering), digest@),
{
    ServiceRequest {
        system_instruction: system_instruction(task, steering),
        user_content: user_content(task, steering, digest.as_str()),
        options: task_options(task),
    }
}

/// Reads a reply by its choices, each given by the text it carries, if any.
/// The first choice decides: its text is the reply's, or the task's fallback
/// where it carries none. A reply without any choice is malformed: it has no
/// text, and the caller surfaces a failure of the service.
pub fn reply_text(task: Task, choices: Vec<Option<String>>) -> (text: Option<String>)
    ensures
        match text {
            Some(t) => choices@.len() > 0 && t@ == (match choices@[0] {
                Some(c) => c@,
                None => fallback_text(task),
            }),
            None => choices@.len() == 0,
        },
{
    let mut choices = choices;
    if choices.len() == 0 {
        None
    } else {
        let first = choices.remove(0);
        Some(completion_text(task, first))
    }
}

/// Reads the first choice of an answer: its text, or the task's fallback
/// where it carries none.
pub fn completion_text(task: Task, content: Option<String>) -> (text: String)
    ensures
        text@ == match content {
            Some(c) => c@,
            None => fallback_text(task),
        },
{
    match content {
        Some(c) => c,
        None => match task {
            Task::Summarize | Task::HistoryEntry => String::from_str(NO_SUMMARY),
            Task::CommitMessage => String::from_str(NO_COMMIT_MESSAGE),
            Task::GroupChanges => String::from_str(NO_GROUPS),
        },
    }
}

} // verus!
