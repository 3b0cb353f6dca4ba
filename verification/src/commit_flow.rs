//! The commit command, step by step.
//!
//! The command reads the repository, asks the service and writes a commit.
//! The order of these steps is held here as a machine: it is told what
//! happened and says what to do next. Nothing is written before the message
//! is in hand, and nothing is written at all when the index is empty or the
//! staged changes show no changed line.

use vstd::prelude::*;
use vstd::string::*;
use crate::changeset::{Changeset, FileModel};
use crate::digest::{changeset_text, LayoutModel};
use crate::orchestrator::{plan_commit, plan_for, Plan, PlanModel, ROW_END};
use crate::synthesis::{
    completion_text, fallback_text, ServiceRequest, ServiceRequestModel, Task,
};

verus! {

/// What the user is told when the staging index holds nothing.
pub const NOTHING_TO_COMMIT: &'static str = "No changes to commit";

/// What opens the report of a commit that was created.
pub const COMMIT_HEADING: &'static str = "Created commit with message:\n";

/// Where the command stands.
#[derive(Clone, Debug, PartialEq, Eq)]
pub enum CommitState {
    /// Nothing has happened yet.
    Idle,
    /// The number of index entries is awaited.
    CountingIndex,
    /// The staged changes are awaited.
    ReadingStaged,
    /// The service's answer is awaited.
    Asking,
    /// The commit is being written; the report is kept for afterwards.
    Writing { report: String },
    /// The command is over.
    Finished,
}

/// What happened outside.
#[derive(Clone, Debug, PartialEq, Eq)]
pub enum CommitEvent {
    /// The command was invoked.
    Start,
    /// The staging index holds this many entries.
    IndexEntries(usize),
    /// These are the staged changes against the current head.
    Staged(Changeset),
    /// The service answered; the first choice carries this text, if any.
    Answer(Option<String>),
    /// The commit exists.
    Written,
}

/// What to do next.
#[derive(Clone, Debug, PartialEq, Eq)]
pub enum CommitAction {
    /// Count the entries of the staging index.
    CountIndex,
    /// Extract the staged changes against the current head.
    ExtractStaged,
    /// Send this request to the service.
    Ask(ServiceRequest),
    /// Write the index as a tree and create a commit with this message on
    /// top of the current head, its only parent.
    Write { message: String },
    /// Show this report and stop.
    Finish { report: String },
}

/// Mathematical content of a [`CommitState`].
pub enum CommitStateModel {
    Idle,
    CountingIndex,
    ReadingStaged,
    Asking,
    Writing { report: Seq<char> },
    Finished,
}

/// Mathematical content of a [`CommitEvent`].
pub enum CommitEventModel {
    Start,
    IndexEntries(usize),
    Staged(Seq<FileModel>),
    Answer(Option<Seq<char>>),
    Written,
}

/// Mathematical content of a [`CommitAction`].
pub enum CommitActionModel {
    CountIndex,
    ExtractStaged,
    Ask(ServiceRequestModel),
    Write { message: Seq<char> },
    Finish { report: Seq<char> },
}

impl View for CommitState {
    type V = CommitStateModel;

    open spec fn view(&self) -> CommitStateModel {
        match self {
            CommitState::Idle => CommitStateModel::Idle,
            CommitState::CountingIndex => CommitStateModel::CountingIndex,
            CommitState::ReadingStaged => CommitStateModel::ReadingStaged,
            CommitState::Asking => CommitStateModel::Asking,
            CommitState::Writing { report } => CommitStateModel::Writing { report: report@ },
            CommitState::Finished => CommitStateModel::Finished,
        }
    }
}

impl View for CommitEvent {
    type V = CommitEventModel;

    open spec fn view(&self) -> CommitEventModel {
        match self {
            CommitEvent::Start => CommitEventModel::Start,
            CommitEvent::IndexEntries(n) => CommitEventModel::IndexEntries(*n),
            CommitEvent::Staged(changeset) => CommitEventModel::Staged(changeset@),
            CommitEvent::Answer(content) => CommitEventModel::Answer(
                match content {
                    Some(c) => Some(c@),
                    None => None,
                },
            ),
            CommitEvent::Written => CommitEventModel::Written,
        }
    }
}

impl View for CommitAction {
    type V = CommitActionModel;

    open spec fn view(&self) -> CommitActionModel {
        match self {
            CommitAction::CountIndex => CommitActionModel::CountIndex,
            CommitAction::ExtractStaged => CommitActionModel::ExtractStaged,
            CommitAction::Ask(request) => CommitActionModel::Ask(request@),
            CommitAction::Write { message } => CommitActionModel::Write { message: message@ },
            CommitAction::Finish { report } => CommitActionModel::Finish { report: report@ },
        }
    }
}

/// The message that an answer amounts to: its text, whatever it says, or
/// the fallback where it carries none.
pub open spec fn message_of(content: Option<Seq<char>>) -> Seq<char> {
    match content {
        Some(c) => c,
        None => fallback_text(Task::CommitMessage),
    }
}

/// The report of a commit that was created with `message`.
pub open spec fn report_of(message: Seq<char>) -> Seq<char> {
    COMMIT_HEADING@ + message + ROW_END@
}

/// The digest that stands for the staged changes: added and removed lines,
/// each with its file.
pub open spec fn staged_text(files: Seq<FileModel>) -> Seq<char> {
    changeset_text(LayoutModel::Listed, files)
}

/// What follows an event in a state; `None` where the event does not belong
/// to the state.
pub open spec fn transition(state: CommitStateModel, event: CommitEventModel) -> Option<
    (CommitStateModel, CommitActionModel),
> {
    match (state, event) {
        (CommitStateModel::Idle, CommitEventModel::Start) => Some(
            (CommitStateModel::CountingIndex, CommitActionModel::CountIndex),
        ),
        (CommitStateModel::CountingIndex, CommitEventModel::IndexEntries(n)) => if n == 0 {
            Some(
                (
                    CommitStateModel::Finished,
                    CommitActionModel::Finish { report: NOTHING_TO_COMMIT@ + ROW_END@ },
                ),
            )
        } else {
            Some((CommitStateModel::ReadingStaged, CommitActionModel::ExtractStaged))
        },
        (CommitStateModel::ReadingStaged, CommitEventModel::Staged(files)) => match plan_for(
            Task::CommitMessage,
            None,
            staged_text(files),
        ) {
            PlanModel::NothingToDo(message) => Some(
                (
                    CommitStateModel::Finished,
                    CommitActionModel::Finish { report: message + ROW_END@ },
                ),
            ),
            PlanModel::Ask(request) => Some(
                (CommitStateModel::Asking, CommitActionModel::Ask(request)),
            ),
        },
        (CommitStateModel::Asking, CommitEventModel::Answer(content)) => Some(
            (
                CommitStateModel::Writing { report: report_of(message_of(content)) },
                CommitActionModel::Write { message: message_of(content) },
            ),
        ),
        (CommitStateModel::Writing { report }, CommitEventModel::Written) => Some(
            (CommitStateModel::Finished, CommitActionModel::Finish { report }),
        ),
        _ => None,
    }
}

/// The actions that a run takes when it starts in `state` and is told
/// `events` in order. The run breaks off at the first event that does not
/// belong to its state.
pub open spec fn actions_from(state: CommitStateModel, events: Seq<CommitEventModel>) -> Seq<
    CommitActionModel,
>
    decreases events.len(),
{
    if events.len() == 0 {
        Seq::empty()
    } else {
        match transition(state, events[0]) {
            Some((next, action)) => seq![action] + actions_from(next, events.drop_first()),
            None => Seq::empty(),
        }
    }
}

/// The actions of a run of the whole command.
pub open spec fn actions(events: Seq<CommitEventModel>) -> Seq<CommitActionModel> {
    actions_from(CommitStateModel::Idle, events)
}

/// With an empty staging index the command says that there is nothing to
/// commit and stops: it extracts nothing, asks nothing and writes nothing,
/// whatever it is told afterwards.
pub proof fn lemma_empty_index_writes_nothing(events: Seq<CommitEventModel>)
    requires
        events.len() >= 2,
        events[0] is Start,
        events[1] == CommitEventModel::IndexEntries(0),
    ensures
        actions(events) =~= seq![
            CommitActionModel::CountIndex,
            CommitActionModel::Finish { report: NOTHING_TO_COMMIT@ + ROW_END@ },
        ],
{
    reveal_with_fuel(actions_from, 3);
    let rest = events.drop_first();
    assert(rest[0] == events[1]);
    let after = rest.drop_first();
    if after.len() > 0 {
        assert(transition(CommitStateModel::Finished, after[0]) is None);
    }
}

/// Staged changes without deltas end the command as well: the service is
/// not asked and nothing is written.
pub proof fn lemma_no_staged_changes_write_nothing(events: Seq<CommitEventModel>, n: usize)
    requires
        events.len() >= 3,
        events[0] is Start,
        events[1] == CommitEventModel::IndexEntries(n),
        n > 0,
        events[2] == CommitEventModel::Staged(Seq::empty()),
    ensures
        actions(events).len() == 3,
        actions(events)[0] is CountIndex,
        actions(events)[1] is ExtractStaged,
        actions(events)[2] is Finish,
{
    reveal_with_fuel(actions_from, 4);
    let first = events.drop_first();
    let second = first.drop_first();
    let third = second.drop_first();
    assert(first[0] == events[1]);
    assert(second[0] == events[2]);
    assert(staged_text(Seq::empty()).len() == 0);
    if third.len() > 0 {
        assert(transition(CommitStateModel::Finished, third[0]) is None);
    }
}

/// The message is in hand before anything is written: in every run, a
/// write is the fourth action, it follows a request to the service, and its
/// message is what the service answered. There is at most one write.
pub proof fn lemma_message_before_write(events: Seq<CommitEventModel>, i: int)
    requires
        0 <= i < actions(events).len(),
        actions(events)[i] is Write,
    ensures
        i == 3,
        actions(events)[2] is Ask,
        events[3] is Answer,
        actions(events)[3] == (CommitActionModel::Write { message: message_of(events[3]->Answer_0) }),
{
    reveal_with_fuel(actions_from, 6);
    let e1 = events.drop_first();
    let e2 = e1.drop_first();
    let e3 = e2.drop_first();
    let e4 = e3.drop_first();
    let e5 = e4.drop_first();
    if e1.len() > 0 {
        assert(e1[0] == events[1]);
    }
    if e2.len() > 0 {
        assert(e2[0] == events[2]);
    }
    if e3.len() > 0 {
        assert(e3[0] == events[3]);
    }
    if e4.len() > 0 {
        assert(e4[0] == events[4]);
    }
    if e5.len() > 0 {
        assert(transition(CommitStateModel::Finished, e5[0]) is None);
    }
    lemma_finished_takes_nothing(e5);
}

/// A command that is over takes no further action.
pub proof fn lemma_finished_takes_nothing(events: Seq<CommitEventModel>)
    ensures
        actions_from(CommitStateModel::Finished, events) =~= Seq::empty(),
{
    if events.len() > 0 {
        assert(transition(CommitStateModel::Finished, events[0]) is None);
    }
}

/// Takes one event and says what follows: the next state and the action to
/// take, or nothing where the event does not belong to the state.
pub fn commit_step(state: CommitState, event: CommitEvent) -> (next: Option<
    (CommitState, CommitAction),
>)
    ensures
        match next {
            Some((after, action)) => transition(state@, event@) == Some((after@, action@)),
            None => transition(state@, event@) is None,
        },
{
    match (state, event) {
        (CommitState::Idle, CommitEvent::Start) => Some(
            (CommitState::CountingIndex, CommitAction::CountIndex),
        ),
        (CommitState::CountingIndex, CommitEvent::IndexEntries(n)) => {
            if n == 0 {
                let mut report = String::from_str(NOTHING_TO_COMMIT);
                report.append(ROW_END);
                Some((CommitState::Finished, CommitAction::Finish { report }))
            } else {
                Some((CommitState::ReadingStaged, CommitAction::ExtractStaged))
            }
        },
        (CommitState::ReadingStaged, CommitEvent::Staged(changeset)) => {
            match plan_commit(&changeset) {
                Plan::NothingToDo(message) => {
                    let mut report = message;
                    report.append(ROW_END);
                    Some((CommitState::Finished, CommitAction::Finish { report }))
                },
                Plan::Ask(request) => Some((CommitState::Asking, CommitAction::Ask(request))),
            }
        },
        (CommitState::Asking, CommitEvent::Answer(content)) => {
            let message = completion_text(Task::CommitMessage, content);
            let mut report = String::from_str(COMMIT_HEADING);
            report.append(message.as_str());
            report.append(ROW_END);
            Some((CommitState::Writing { report }, CommitAction::Write { message }))
        },
        (CommitState::Writing { report }, CommitEvent::Written) => Some(
            (CommitState::Finished, CommitAction::Finish { report }),
        ),
        _ => None,
    }
}

} // verus!
