//! What each command does with the parts: which digest it builds, when it
//! stops because there is nothing to do, what it asks of the service and
//! what it reports.
//!
//! A command never asks the service about an empty digest. No step is tried
//! twice: the first failure ends the command.

use vstd::prelude::*;
use vstd::string::*;
use crate::changeset::{lemma_listed_paths, listed_paths, Changeset, FileModel};
use crate::digest::{
    build, changeset_text, combined_text, lemma_no_deltas_no_digest, render, Digest, Layout,
    LayoutModel, TaggedChangeset, TaggedModel,
};
use crate::grouping::{
    is_validation, known_set, validate_grouping, GroupingResult, ValidationError,
    ValidationErrorModel, MALFORMED, RESPONSE_WAS, UNKNOWN_FILE,
};
use crate::identity::CommitIdentity;
use crate::resolver::{ResolutionError, ResolutionErrorModel, NOT_RESOLVED};
use crate::synthesis::{
    completion_text, compose, fallback_text, request_for, text_model, ServiceRequest,
    ServiceRequestModel, Task, NO_GROUPS, NO_SUMMARY,
};

verus! {

/// Tag of the changes that are staged for the next commit.
pub const STAGED_TAG: &'static str = "[Staged]";

/// Tag of the changes that are not staged.
pub const UNSTAGED_TAG: &'static str = "[Unstaged]";

/// What stands for the commit message when the staged changes show no
/// changed line.
pub const NO_CHANGES: &'static str = "No changes detected.";

/// What opens the report of the diff command.
pub const DIFF_HEADING: &'static str = "Changes Summary:\n";

/// What opens the report of the history command.
pub const HISTORY_HEADING: &'static str = "Git History Summary:\n\n";

/// What opens the entry of one commit; the short identity follows.
pub const ENTRY_OPENING: &'static str = "Commit ";

/// What opens the subject of an entry, after the short identity.
pub const SUBJECT_OPENING: &'static str = " (";

/// What closes the subject of an entry; the summary follows.
pub const SUBJECT_CLOSING: &'static str = "):\n";

/// The subject of a commit that has none.
pub const NO_SUBJECT: &'static str = "No summary";

/// What stands between two entries of a history report.
pub const ENTRY_SEPARATOR: &'static str = "\n---\n\n\n";

/// What ends a row of a report.
pub const ROW_END: &'static str = "\n";

/// Where the diff command takes its two sides from.
#[derive(Clone, Debug, PartialEq, Eq)]
pub enum DiffSource {
    /// The staging index against the current head; no reference is resolved.
    Staged,
    /// The tree of `from` against the tree of `to`, or against the current
    /// head where `to` is absent.
    Between { from: String, to: Option<String> },
}

/// Mathematical content of a [`DiffSource`].
pub enum DiffSourceModel {
    Staged,
    Between { from: Seq<char>, to: Option<Seq<char>> },
}

/// What a command does next once its digest is known.
#[derive(Clone, Debug, PartialEq, Eq)]
pub enum Plan {
    /// Stop without failure and tell the user why.
    NothingToDo(String),
    /// Send this request.
    Ask(ServiceRequest),
}

/// Mathematical content of a [`Plan`].
pub enum PlanModel {
    NothingToDo(Seq<char>),
    Ask(ServiceRequestModel),
}

/// What the grouping analysis does next once its digest is known.
#[derive(Clone, Debug, PartialEq, Eq)]
pub enum AnalysisPlan {
    /// There is nothing to group: this result, without groups, is the answer.
    Finished(GroupingResult),
    /// Send this request.
    Ask(ServiceRequest),
}

/// Why a command was given up.
#[derive(Clone, Debug, PartialEq, Eq)]
pub enum Failure {
    /// A reference did not resolve.
    Resolution(ResolutionError),
    /// The diff could not be computed; carries the repository's words.
    Extraction(String),
    /// The service could not be reached or refused; carries the transport's words.
    Service(String),
    /// The service's answer to a grouping request was turned down.
    Validation(ValidationError),
}

/// Mathematical content of a [`Failure`].
pub enum FailureModel {
    Resolution(ResolutionErrorModel),
    Extraction(Seq<char>),
    Service(Seq<char>),
    Validation(ValidationErrorModel),
}

impl View for DiffSource {
    type V = DiffSourceModel;

    open spec fn view(&self) -> DiffSourceModel {
        match self {
            DiffSource::Staged => DiffSourceModel::Staged,
            DiffSource::Between { from, to } => DiffSourceModel::Between {
                from: from@,
                to: match to {
                    Some(t) => Some(t@),
                    None => None,
                },
            },
        }
    }
}

impl View for Plan {
    type V = PlanModel;

    open spec fn view(&self) -> PlanModel {
        match self {
            Plan::NothingToDo(message) => PlanModel::NothingToDo(message@),
            Plan::Ask(request) => PlanModel::Ask(request@),
        }
    }
}

impl View for Failure {
    type V = FailureModel;

    open spec fn view(&self) -> FailureModel {
        match self {
            Failure::Resolution(error) => FailureModel::Resolution(error@),
            Failure::Extraction(message) => FailureModel::Extraction(message@),
            Failure::Service(message) => FailureModel::Service(message@),
            Failure::Validation(error) => FailureModel::Validation(error@),
        }
    }
}

/// What stands for the answer of a task when there is nothing to ask about:
/// a summary that says that none is available, a commit message that says
/// that no changes were detected, and groups that are none.
pub open spec fn idle_text(task: Task) -> Seq<char> {
    match task {
        Task::Summarize | Task::HistoryEntry => NO_SUMMARY@,
        Task::CommitMessage => NO_CHANGES@,
        Task::GroupChanges => NO_GROUPS@,
    }
}

/// The plan that a digest calls for: nothing to do when it is empty, told in
/// the words of the task, and the task's request otherwise.
pub open spec fn plan_for(task: Task, steering: Option<Seq<char>>, digest: Seq<char>)
    -> PlanModel {
    if digest.len() == 0 {
        PlanModel::NothingToDo(idle_text(task))
    } else {
        PlanModel::Ask(request_for(task, steering, digest))
    }
}

/// The digest of the grouping task: staged changes first, then unstaged
/// ones, each under its tag.
pub open spec fn analysis_text(staged: Seq<FileModel>, unstaged: Seq<FileModel>) -> Seq<char> {
    combined_text(
        seq![
            TaggedModel { files: staged, tag: STAGED_TAG@ },
            TaggedModel { files: unstaged, tag: UNSTAGED_TAG@ },
        ],
    )
}

/// The paths that an answer to the grouping task may name.
pub open spec fn analysis_paths(staged: Seq<FileModel>, unstaged: Seq<FileModel>) -> Set<
    Seq<char>,
> {
    (listed_paths(staged) + listed_paths(unstaged)).to_set()
}

/// The text of an answer, read with the task's fallback.
pub open spec fn answer_text(task: Task, content: Option<String>) -> Seq<char> {
    match content {
        Some(c) => c@,
        None => fallback_text(task),
    }
}

/// The entry of one commit in a history report.
pub open spec fn entry_text(id: CommitIdentity, subject: Option<Seq<char>>, summary: Seq<char>)
    -> Seq<char> {
    ENTRY_OPENING@ + id.hex().take(7) + SUBJECT_OPENING@ + (match subject {
        Some(s) => s,
        None => NO_SUBJECT@,
    }) + SUBJECT_CLOSING@ + summary + ROW_END@
}

/// The entries of a history report, each ending its row, with the separator
/// between any two of them and nowhere else.
pub open spec fn joined_entries(entries: Seq<Seq<char>>) -> Seq<char>
    decreases entries.len(),
{
    if entries.len() == 0 {
        Seq::empty()
    } else if entries.len() == 1 {
        entries[0] + ROW_END@
    } else {
        joined_entries(entries.drop_last()) + ENTRY_SEPARATOR@ + entries.last() + ROW_END@
    }
}

/// The message of a failure: that of the part that failed, word for word.
pub open spec fn failure_text(failure: FailureModel) -> Seq<char> {
    match failure {
        FailureModel::Resolution(ResolutionErrorModel::ReferenceNotResolved { reference }) => {
            NOT_RESOLVED@ + reference
        },
        FailureModel::Resolution(ResolutionErrorModel::Collaborator { message }) => message,
        FailureModel::Extraction(message) => message,
        FailureModel::Service(message) => message,
        FailureModel::Validation(ValidationErrorModel::MalformedResponse { response }) => {
            MALFORMED@ + response
        },
        FailureModel::Validation(ValidationErrorModel::UnknownFileInGroup { path, response }) => {
            UNKNOWN_FILE@ + path + RESPONSE_WAS@ + response
        },
    }
}

/// A changeset without deltas has an empty digest in every layout, and an
/// empty digest is never sent, whatever the task and the steering.
pub proof fn lemma_no_deltas_nothing_to_do(
    task: Task,
    steering: Option<Seq<char>>,
    layout: LayoutModel,
)
    ensures
        changeset_text(layout, Seq::empty()).len() == 0,
        plan_for(task, steering, changeset_text(layout, Seq::empty())) is NothingToDo,
        analysis_text(Seq::empty(), Seq::empty()).len() == 0,
{
    let parts = seq![
        TaggedModel { files: Seq::empty(), tag: STAGED_TAG@ },
        TaggedModel { files: Seq::empty(), tag: UNSTAGED_TAG@ },
    ];
    lemma_no_deltas_no_digest(parts);
}

/// Chooses the two sides of the diff command. The staged flag wins over any
/// reference given beside it.
pub fn diff_source(from: &str, to: Option<&str>, staged: bool) -> (source: DiffSource)
    ensures
        staged ==> source@ == DiffSourceModel::Staged,
        !staged ==> source@ == (DiffSourceModel::Between { from: from@, to: text_model(to) }),
{
    if staged {
        DiffSource::Staged
    } else {
        DiffSource::Between {
            from: from.to_owned(),
            to: match to {
                Some(t) => Some(t.to_owned()),
                None => None,
            },
        }
    }
}

/// Decides what to do with a digest: stop on an empty one, with the words
/// that stand for the task's answer, and ask otherwise.
pub fn plan(task: Task, steering: Option<&str>, digest: &Digest) -> (next: Plan)
    ensures
        next@ == plan_for(task, text_model(steering), digest@),
        next is NothingToDo <==> digest@.len() == 0,
{
    if digest.is_empty() {
        let words = match task {
            Task::Summarize | Task::HistoryEntry => NO_SUMMARY,
            Task::CommitMessage => NO_CHANGES,
            Task::GroupChanges => NO_GROUPS,
        };
        Plan::NothingToDo(String::from_str(words))
    } else {
        Plan::Ask(compose(task, steering, digest))
    }
}

/// The diff command: every line of the changeset, context included, goes
/// into one digest that the service is asked to summarize. A changeset
/// without deltas is not put to the service: no summary is available.
pub fn plan_diff(changeset: &Changeset, steering: Option<&str>) -> (next: Plan)
    ensures
        next@ == plan_for(
            Task::Summarize,
            text_model(steering),
            changeset_text(LayoutModel::Plain, changeset@),
        ),
        changeset@.len() == 0 ==> next@ == PlanModel::NothingToDo(NO_SUMMARY@),
{
    let digest = render(changeset, &Layout::Plain);
    plan(Task::Summarize, steering, &digest)
}

/// One commit of a history walk: its changeset against its first parent is
/// summarized as the diff command would.
pub fn plan_history_entry(changeset: &Changeset) -> (next: Plan)
    ensures
        next@ == plan_for(
            Task::HistoryEntry,
            None,
            changeset_text(LayoutModel::Plain, changeset@),
        ),
        changeset@.len() == 0 ==> next@ == PlanModel::NothingToDo(NO_SUMMARY@),
{
    let digest = render(changeset, &Layout::Plain);
    plan(Task::HistoryEntry, None, &digest)
}

/// The commit command, once the staged changes are known: added and removed
/// lines go into the digest, each with its file.
pub fn plan_commit(staged: &Changeset) -> (next: Plan)
    ensures
        next@ == plan_for(
            Task::CommitMessage,
            None,
            changeset_text(LayoutModel::Listed, staged@),
        ),
        staged@.len() == 0 ==> next@ == PlanModel::NothingToDo(NO_CHANGES@),
{
    let digest = render(staged, &Layout::Listed);
    plan(Task::CommitMessage, None, &digest)
}

/// The grouping analysis: staged and unstaged changes go into one digest,
/// staged first, each line under the tag of its origin. With an empty digest
/// the analysis is over at once and has no groups.
pub fn plan_analysis(staged: &Changeset, unstaged: &Changeset, focus: Option<&str>) -> (next:
    AnalysisPlan)
    ensures
        match next {
            AnalysisPlan::Finished(result) => analysis_text(staged@, unstaged@).len() == 0
                && result@.len() == 0,
            AnalysisPlan::Ask(request) => analysis_text(staged@, unstaged@).len() > 0 && request@
                == request_for(
                Task::GroupChanges,
                text_model(focus),
                analysis_text(staged@, unstaged@),
            ),
        },
        staged@.len() == 0 && unstaged@.len() == 0 ==> next is Finished,
{
    let mut parts: Vec<TaggedChangeset> = Vec::new();
    parts.push(TaggedChangeset { changeset: staged, tag: STAGED_TAG });
    parts.push(TaggedChangeset { changeset: unstaged, tag: UNSTAGED_TAG });
    assert(parts@.map_values(|part: TaggedChangeset| part@) =~= seq![
        TaggedModel { files: staged@, tag: STAGED_TAG@ },
        TaggedModel { files: unstaged@, tag: UNSTAGED_TAG@ },
    ]);
    let digest = build(&parts);
    if digest.is_empty() {
        AnalysisPlan::Finished(GroupingResult::empty())
    } else {
        AnalysisPlan::Ask(compose(Task::GroupChanges, focus, &digest))
    }
}

/// The paths that the staged and the unstaged changes name, staged first.
pub fn known_paths(staged: &Changeset, unstaged: &Changeset) -> (known: Vec<String>)
    ensures
        known@.map_values(|path: String| path@) == listed_paths(staged@) + listed_paths(
            unstaged@,
        ),
{
    let mut known = staged.paths();
    let mut rest = unstaged.paths();
    let ghost head = known@;
    let ghost tail = rest@;
    known.append(&mut rest);
    assert(known@.map_values(|path: String| path@) =~= head.map_values(|path: String| path@)
        + tail.map_values(|path: String| path@));
    known
}

/// Ends the grouping analysis: the answer is read and held against the
/// paths of the two changesets. Every path of a result that comes back is
/// the path of some delta of one of them.
pub fn finish_analysis(content: Option<String>, staged: &Changeset, unstaged: &Changeset) -> (verdict:
    Result<GroupingResult, ValidationError>)
    ensures
        is_validation(
            answer_text(Task::GroupChanges, content),
            analysis_paths(staged@, unstaged@),
            verdict,
        ),
        verdict matches Ok(result) ==> forall|g: int, p: int|
            #![trigger result@[g][p]]
            0 <= g < result@.len() && 0 <= p < result@[g].len() ==> (exists|i: int|
                0 <= i < staged@.len() && (#[trigger] staged@[i]).path == Some(result@[g][p]))
                || (exists|i: int|
                0 <= i < unstaged@.len() && (#[trigger] unstaged@[i]).path == Some(
                    result@[g][p],
                )),
{
    let text = completion_text(Task::GroupChanges, content);
    let known = known_paths(staged, unstaged);
    let verdict = validate_grouping(text.as_str(), &known);
    proof {
        if let Ok(result) = &verdict {
            assert forall|g: int, p: int|
                #![trigger result@[g][p]]
                0 <= g < result@.len() && 0 <= p < result@[g].len() implies (exists|i: int|
                0 <= i < staged@.len() && (#[trigger] staged@[i]).path == Some(result@[g][p]))
                || (exists|i: int|
                0 <= i < unstaged@.len() && (#[trigger] unstaged@[i]).path == Some(
                    result@[g][p],
                )) by {
                let path = result@[g][p];
                assert(known_set(known@).contains(path));
                assert((listed_paths(staged@) + listed_paths(unstaged@)).contains(path));
                lemma_listed_paths(staged@, path);
                lemma_listed_paths(unstaged@, path);
                let k = choose|k: int|
                    0 <= k < (listed_paths(staged@) + listed_paths(unstaged@)).len() && (
                    listed_paths(staged@) + listed_paths(unstaged@))[k] == path;
                if k < listed_paths(staged@).len() {
                    assert(listed_paths(staged@)[k] == path);
                } else {
                    assert(listed_paths(unstaged@)[k - listed_paths(staged@).len()] == path);
                }
            }
        }
    }
    verdict
}

/// The report of the diff command.
pub fn diff_report(content: Option<String>) -> (report: String)
    ensures
        report@ == DIFF_HEADING@ + answer_text(Task::Summarize, content) + ROW_END@,
{
    let summary = completion_text(Task::Summarize, content);
    let mut report = String::from_str(DIFF_HEADING);
    report.append(summary.as_str());
    report.append(ROW_END);
    report
}

/// The entry of one commit in a history report: its short identity, its
/// subject and the service's summary.
pub fn history_entry(id: &CommitIdentity, subject: Option<&str>, content: Option<String>) -> (entry:
    String)
    ensures
        entry@ == entry_text(*id, text_model(subject), answer_text(Task::HistoryEntry, content)),
{
    let summary = completion_text(Task::HistoryEntry, content);
    let short = id.abbreviated();
    let mut entry = String::from_str(ENTRY_OPENING);
    entry.append(short.as_str());
    entry.append(SUBJECT_OPENING);
    match subject {
        Some(s) => entry.append(s),
        None => entry.append(NO_SUBJECT),
    }
    entry.append(SUBJECT_CLOSING);
    entry.append(summary.as_str());
    entry.append(ROW_END);
    entry
}

/// The report of the history command: the heading, then the entries in walk
/// order with a separator between any two.
pub fn history_report(entries: &Vec<String>) -> (report: String)
    ensures
        report@ == HISTORY_HEADING@ + joined_entries(entries@.map_values(|e: String| e@)),
{
    let ghost texts = entries@.map_values(|e: String| e@);
    let mut report = String::from_str(HISTORY_HEADING);
    let mut i: usize = 0;
    assert(report@ =~= HISTORY_HEADING@ + joined_entries(texts.take(0)));
    while i < entries.len()
        invariant
            i <= entries.len(),
            texts == entries@.map_values(|e: String| e@),
            report@ == HISTORY_HEADING@ + joined_entries(texts.take(i as int)),
        decreases entries.len() - i,
    {
        let ghost before = joined_entries(texts.take(i as int));
        assert(texts.take(i + 1).drop_last() =~= texts.take(i as int));
        assert(texts.take(i + 1).last() == entries[i as int]@);
        assert(texts.take(i + 1)[0] == texts[0]);
        if i > 0 {
            report.append(ENTRY_SEPARATOR);
        }
        report.append(entries[i].as_str());
        report.append(ROW_END);
        assert(report@ =~= HISTORY_HEADING@ + joined_entries(texts.take(i + 1))) by {
            if i == 0 {
                assert(before =~= Seq::<char>::empty());
            }
        }
        i += 1;
    }
    assert(texts.take(i as int) =~= texts);
    report
}

impl Failure {
    /// What the user is shown before the command ends unsuccessfully.
    pub fn message(&self) -> (text: String)
        ensures
            text@ == failure_text(self@),
    {
        match self {
            Failure::Resolution(error) => error.message(),
            Failure::Extraction(message) => message.clone(),
            Failure::Service(message) => message.clone(),
            Failure::Validation(error) => error.message(),
        }
    }
}

} // verus!
