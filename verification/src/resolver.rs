//! Resolution of a user's reference to a commit identity.
//!
//! Three tiers are consulted in strict order and the first that finds a
//! commit wins: the reference as a branch or tag name, the reference as a
//! revision expression, and the reference as the beginning of a spelled-out
//! identity. The last tier is skipped for references of fewer than four
//! characters. The repository itself is out of reach here: the resolver says
//! which tier to consult, the caller consults it and reports what came back.

use vstd::prelude::*;
use vstd::string::*;
use crate::identity::CommitIdentity;

verus! {

/// Fewest characters that a reference needs to be tried as a partial hash.
pub const MIN_PARTIAL_HASH: usize = 4;

/// What opens the message for a reference that no tier resolved.
pub const NOT_RESOLVED: &'static str = "Could not resolve git reference: ";

/// One way of reading a reference.
#[derive(Clone, Copy, Debug, PartialEq, Eq, Structural)]
pub enum Tier {
    /// A branch or tag name, peeled to the commit it points at.
    Direct,
    /// A revision expression, such as the parent of a named commit.
    Revision,
    /// The beginning of a spelled-out identity, looked for in the object store.
    PartialHash,
}

/// What consulting one tier came to.
#[derive(Clone, Debug, PartialEq, Eq)]
pub enum Lookup {
    /// The tier names this commit.
    Found(CommitIdentity),
    /// The tier knows nothing by that reference.
    Missing,
    /// The tier knows the reference but the repository failed underneath.
    Failed(String),
}

/// Mathematical content of a [`Lookup`].
pub enum LookupModel {
    Found(CommitIdentity),
    Missing,
    Failed(Seq<char>),
}

/// Why a reference did not resolve.
#[derive(Clone, Debug, PartialEq, Eq)]
pub enum ResolutionError {
    /// Every tier that was consulted knew nothing; carries the reference as given.
    ReferenceNotResolved { reference: String },
    /// The repository failed while a tier was consulted; carries its message.
    Collaborator { message: String },
}

/// Mathematical content of a [`ResolutionError`].
pub enum ResolutionErrorModel {
    ReferenceNotResolved { reference: Seq<char> },
    Collaborator { message: Seq<char> },
}

/// A resolution under way: the reference and the tier whose answer is awaited.
#[derive(Clone, Debug, PartialEq, Eq)]
pub struct Resolver {
    pub reference: String,
    pub tier: Tier,
}

/// What follows an answer: another tier to consult, or the end.
#[derive(Clone, Debug, PartialEq, Eq)]
pub enum Step {
    Ask(Resolver),
    Resolved(CommitIdentity),
    Failed(ResolutionError),
}

/// Mathematical content of a [`Step`].
pub enum StepModel {
    Ask { tier: Tier, reference: Seq<char> },
    Resolved(CommitIdentity),
    Failed(ResolutionErrorModel),
}

impl View for Lookup {
    type V = LookupModel;

    open spec fn view(&self) -> LookupModel {
        match self {
            Lookup::Found(id) => LookupModel::Found(*id),
            Lookup::Missing => LookupModel::Missing,
            Lookup::Failed(message) => LookupModel::Failed(message@),
        }
    }
}

impl View for ResolutionError {
    type V = ResolutionErrorModel;

    open spec fn view(&self) -> ResolutionErrorModel {
        match self {
            ResolutionError::ReferenceNotResolved { reference } => {
                ResolutionErrorModel::ReferenceNotResolved { reference: reference@ }
            },
            ResolutionError::Collaborator { message } => {
                ResolutionErrorModel::Collaborator { message: message@ }
            },
        }
    }
}

impl View for Step {
    type V = StepModel;

    open spec fn view(&self) -> StepModel {
        match self {
            Step::Ask(resolver) => StepModel::Ask {
                tier: resolver.tier,
                reference: resolver.reference@,
            },
            Step::Resolved(id) => StepModel::Resolved(*id),
            Step::Failed(error) => StepModel::Failed(error@),
        }
    }
}

/// Whether a reference is long enough to be tried as a partial hash.
pub open spec fn partial_hash_allowed(reference: Seq<char>) -> bool {
    reference.len() >= MIN_PARTIAL_HASH
}

/// The tier to consult after `tier` knew nothing, if any is left.
pub open spec fn after_miss(reference: Seq<char>, tier: Tier) -> Option<Tier> {
    match tier {
        Tier::Direct => Some(Tier::Revision),
        Tier::Revision => if partial_hash_allowed(reference) {
            Some(Tier::PartialHash)
        } else {
            None
        },
        Tier::PartialHash => None,
    }
}

/// What follows the answer of `tier`: a commit ends the resolution, a failure
/// of the repository ends it too, and a miss moves on to the next tier for
/// the same reference or, with none left, ends it unresolved.
pub open spec fn step(reference: Seq<char>, tier: Tier, answer: LookupModel) -> StepModel {
    match answer {
        LookupModel::Found(id) => StepModel::Resolved(id),
        LookupModel::Failed(message) => StepModel::Failed(
            ResolutionErrorModel::Collaborator { message },
        ),
        LookupModel::Missing => match after_miss(reference, tier) {
            Some(next) => StepModel::Ask { tier: next, reference },
            None => StepModel::Failed(ResolutionErrorModel::ReferenceNotResolved { reference }),
        },
    }
}

/// A resolution as far as the answers given carry it: the tiers consulted,
/// in order, and how it ended, if it has.
pub struct Run {
    pub asked: Seq<Tier>,
    pub end: Option<Result<CommitIdentity, ResolutionErrorModel>>,
}

/// The run that starts by consulting `tier` and is fed `answers` in order.
/// Answers beyond the end of the resolution are not looked at.
pub open spec fn run_from(reference: Seq<char>, tier: Tier, answers: Seq<LookupModel>) -> Run
    decreases answers.len(),
{
    if answers.len() == 0 {
        Run { asked: seq![tier], end: None }
    } else {
        match step(reference, tier, answers[0]) {
            StepModel::Ask { tier: next, .. } => {
                let rest = run_from(reference, next, answers.drop_first());
                Run { asked: seq![tier] + rest.asked, end: rest.end }
            },
            StepModel::Resolved(id) => Run { asked: seq![tier], end: Some(Ok(id)) },
            StepModel::Failed(error) => Run { asked: seq![tier], end: Some(Err(error)) },
        }
    }
}

/// The end of a run that resolved to `id`.
pub open spec fn ended_with(id: CommitIdentity) -> Option<
    Result<CommitIdentity, ResolutionErrorModel>,
> {
    Some(Ok(id))
}

/// The end of a run that no tier resolved.
pub open spec fn ended_unresolved(reference: Seq<char>) -> Option<
    Result<CommitIdentity, ResolutionErrorModel>,
> {
    Some(Err(ResolutionErrorModel::ReferenceNotResolved { reference }))
}

/// The run of a whole resolution: it starts with the direct tier.
pub open spec fn run(reference: Seq<char>, answers: Seq<LookupModel>) -> Run {
    run_from(reference, Tier::Direct, answers)
}

/// A reference of fewer than four characters is never looked for in the
/// object store, whatever the repository answers; once the first two tiers
/// know nothing, the resolution ends unresolved with the reference as given.
pub proof fn lemma_short_reference_never_scans(reference: Seq<char>, answers: Seq<LookupModel>)
    requires
        reference.len() < 4,
    ensures
        !run(reference, answers).asked.contains(Tier::PartialHash),
        answers.len() >= 2 && answers[0] is Missing && answers[1] is Missing ==> run(
            reference,
            answers,
        ).end == ended_unresolved(reference),
{
    let whole = run(reference, answers);
    if answers.len() > 0 {
        if let StepModel::Ask { tier: next, .. } = step(reference, Tier::Direct, answers[0]) {
            let rest = answers.drop_first();
            let tail = run_from(reference, Tier::Revision, rest);
            assert(next == Tier::Revision);
            assert(tail.asked =~= seq![Tier::Revision]) by {
                if rest.len() > 0 {
                    assert(!(step(reference, Tier::Revision, rest[0]) is Ask));
                }
            }
            assert(whole.asked =~= seq![Tier::Direct, Tier::Revision]);
            if answers.len() >= 2 {
                assert(rest[0] == answers[1]);
            }
        } else {
            assert(whole.asked =~= seq![Tier::Direct]);
        }
    } else {
        assert(whole.asked =~= seq![Tier::Direct]);
    }
    assert(forall|i: int| 0 <= i < whole.asked.len() ==> whole.asked[i] != Tier::PartialHash);
}

/// The place of a tier in the order of consultation.
pub open spec fn rank(tier: Tier) -> int {
    match tier {
        Tier::Direct => 0,
        Tier::Revision => 1,
        Tier::PartialHash => 2,
    }
}

/// The order of consultation.
pub open spec fn tier_order() -> Seq<Tier> {
    seq![Tier::Direct, Tier::Revision, Tier::PartialHash]
}

proof fn lemma_run_shape(reference: Seq<char>, tier: Tier, answers: Seq<LookupModel>)
    ensures
        1 <= run_from(reference, tier, answers).asked.len() <= 3 - rank(tier),
        run_from(reference, tier, answers).asked =~= tier_order().subrange(
            rank(tier),
            rank(tier) + run_from(reference, tier, answers).asked.len(),
        ),
        answers.len() >= 3 - rank(tier) ==> run_from(reference, tier, answers).end is Some,
        run_from(reference, tier, answers).end is None ==> run_from(
            reference,
            tier,
            answers,
        ).asked.len() == answers.len() + 1,
    decreases answers.len(),
{
    if answers.len() > 0 {
        if let StepModel::Ask { tier: next, .. } = step(reference, tier, answers[0]) {
            lemma_run_shape(reference, next, answers.drop_first());
        }
    }
}

/// The tiers are consulted in strict order, each at most once, so that three
/// answers always end a resolution.
pub proof fn lemma_tiers_in_order(reference: Seq<char>, answers: Seq<LookupModel>)
    ensures
        1 <= run(reference, answers).asked.len() <= 3,
        run(reference, answers).asked =~= tier_order().take(
            run(reference, answers).asked.len() as int,
        ),
        answers.len() >= 3 ==> run(reference, answers).end is Some,
{
    lemma_run_shape(reference, Tier::Direct, answers);
}

/// The first tier that names a commit decides, whatever the later ones
/// would have said: where the `k`-th tier is consulted and finds a commit
/// after all earlier ones knew nothing, that commit is the result.
pub proof fn lemma_first_success_wins(
    reference: Seq<char>,
    answers: Seq<LookupModel>,
    k: int,
    id: CommitIdentity,
)
    requires
        0 <= k < answers.len(),
        k < run(reference, answers).asked.len(),
        answers[k] == LookupModel::Found(id),
        forall|j: int| 0 <= j < k ==> answers[j] is Missing,
    ensures
        run(reference, answers).end == ended_with(id),
        run(reference, answers).asked.len() == k + 1,
{
    lemma_found_after_misses(reference, Tier::Direct, answers, k, id);
}

proof fn lemma_found_after_misses(
    reference: Seq<char>,
    tier: Tier,
    answers: Seq<LookupModel>,
    k: int,
    id: CommitIdentity,
)
    requires
        0 <= k < answers.len(),
        k < run_from(reference, tier, answers).asked.len(),
        answers[k] == LookupModel::Found(id),
        forall|j: int| 0 <= j < k ==> answers[j] is Missing,
    ensures
        run_from(reference, tier, answers).end == ended_with(id),
        run_from(reference, tier, answers).asked.len() == k + 1,
    decreases k,
{
    if k > 0 {
        assert(answers[0] is Missing);
        let rest = answers.drop_first();
        if let StepModel::Ask { tier: next, .. } = step(reference, tier, answers[0]) {
            assert(rest[k - 1] == answers[k]);
            assert forall|j: int| 0 <= j < k - 1 implies rest[j] is Missing by {
                assert(rest[j] == answers[j + 1]);
            }
            lemma_found_after_misses(reference, next, rest, k - 1, id);
        }
    }
}

/// Asked twice in succession while the repository answers alike, a
/// reference resolves to the same commit: the outcome depends on nothing but
/// the reference and the answers of the tiers that were consulted.
pub proof fn lemma_resolution_repeats(
    reference: Seq<char>,
    first: Seq<LookupModel>,
    second: Seq<LookupModel>,
)
    requires
        run(reference, first).end is Some,
        first.len() <= second.len(),
        forall|i: int|
            0 <= i < run(reference, first).asked.len() && i < first.len() ==> first[i]
                == second[i],
    ensures
        run(reference, second) == run(reference, first),
{
    lemma_run_depends_on_consulted(reference, Tier::Direct, first, second);
}

proof fn lemma_run_depends_on_consulted(
    reference: Seq<char>,
    tier: Tier,
    first: Seq<LookupModel>,
    second: Seq<LookupModel>,
)
    requires
        run_from(reference, tier, first).end is Some,
        first.len() <= second.len(),
        forall|i: int|
            0 <= i < run_from(reference, tier, first).asked.len() && i < first.len() ==> first[i]
                == second[i],
    ensures
        run_from(reference, tier, second) == run_from(reference, tier, first),
    decreases first.len(),
{
    if first.len() > 0 {
        assert(first[0] == second[0]);
        if let StepModel::Ask { tier: next, .. } = step(reference, tier, first[0]) {
            let rest_first = first.drop_first();
            let rest_second = second.drop_first();
            let tail = run_from(reference, next, rest_first);
            assert forall|i: int|
                0 <= i < tail.asked.len() && i < rest_first.len() implies rest_first[i]
                == rest_second[i] by {
                assert(rest_first[i] == first[i + 1]);
                assert(rest_second[i] == second[i + 1]);
                assert(run_from(reference, tier, first).asked.len() == tail.asked.len() + 1);
            }
            lemma_run_depends_on_consulted(reference, next, rest_first, rest_second);
        }
    }
}

impl Resolver {
    /// Starts a resolution: the direct tier is consulted first.
    pub fn new(reference: &str) -> (resolver: Resolver)
        ensures
            resolver.reference@ == reference@,
            resolver.tier == Tier::Direct,
    {
        Resolver { reference: reference.to_owned(), tier: Tier::Direct }
    }

    /// The tier whose answer is awaited.
    pub fn tier(&self) -> (tier: Tier)
        ensures
            tier == self.tier,
    {
        self.tier
    }

    /// The reference as the user gave it.
    pub fn reference(&self) -> (reference: &str)
        ensures
            reference@ == self.reference@,
    {
        self.reference.as_str()
    }

    /// Takes the answer of the awaited tier and says what follows. A
    /// resolver that comes back awaits the next tier for the same reference.
    pub fn advance(self, answer: Lookup) -> (next: Step)
        ensures
            next@ == step(self.reference@, self.tier, answer@),
    {
        match answer {
            Lookup::Found(id) => Step::Resolved(id),
            Lookup::Failed(message) => Step::Failed(ResolutionError::Collaborator { message }),
            Lookup::Missing => match self.tier {
                Tier::Direct => Step::Ask(
                    Resolver { reference: self.reference, tier: Tier::Revision },
                ),
                Tier::Revision => {
                    if self.reference.as_str().unicode_len() >= MIN_PARTIAL_HASH {
                        Step::Ask(Resolver { reference: self.reference, tier: Tier::PartialHash })
                    } else {
                        Step::Failed(
                            ResolutionError::ReferenceNotResolved { reference: self.reference },
                        )
                    }
                },
                Tier::PartialHash => Step::Failed(
                    ResolutionError::ReferenceNotResolved { reference: self.reference },
                ),
            },
        }
    }
}

impl ResolutionError {
    /// The message shown to the user. An unresolved reference is named as it
    /// was given; a failure of the repository is passed on word for word.
    pub fn message(&self) -> (text: String)
        ensures
            text@ == match self@ {
                ResolutionErrorModel::ReferenceNotResolved { reference } => NOT_RESOLVED@
                    + reference,
                ResolutionErrorModel::Collaborator { message } => message,
            },
    {
        match self {
            ResolutionError::ReferenceNotResolved { reference } => {
                let mut text = String::from_str(NOT_RESOLVED);
                text.append(reference.as_str());
                text
            },
            ResolutionError::Collaborator { message } => message.clone(),
        }
    }
}

/// What a walk holds after one more identity: a match once held stays, and
/// a walk that holds none takes the identity if its spelling begins with
/// `prefix`.
pub open spec fn held_after(
    held: Option<CommitIdentity>,
    prefix: Seq<char>,
    id: CommitIdentity,
) -> Option<CommitIdentity> {
    match held {
        Some(earlier) => Some(earlier),
        None => if prefix.is_prefix_of(id.hex()) {
            Some(id)
        } else {
            None
        },
    }
}

/// What a walk that started empty-handed holds after visiting `ids` in
/// order: the first of them whose spelling begins with `prefix`.
pub open spec fn first_match(ids: Seq<CommitIdentity>, prefix: Seq<char>) -> Option<
    CommitIdentity,
>
    decreases ids.len(),
{
    if ids.len() == 0 {
        None
    } else {
        held_after(first_match(ids.drop_last(), prefix), prefix, ids.last())
    }
}

/// What "first" means: the match stands at a position before which nothing
/// matches; and there is none exactly when nothing matches at all.
pub proof fn lemma_first_match(ids: Seq<CommitIdentity>, prefix: Seq<char>)
    ensures
        match first_match(ids, prefix) {
            Some(id) => exists|i: int|
                #![trigger ids[i]]
                0 <= i < ids.len() && ids[i] == id && prefix.is_prefix_of(ids[i].hex())
                    && forall|j: int| 0 <= j < i ==> !prefix.is_prefix_of((#[trigger] ids[j]).hex()),
            None => forall|j: int|
                0 <= j < ids.len() ==> !prefix.is_prefix_of((#[trigger] ids[j]).hex()),
        },
    decreases ids.len(),
{
    if ids.len() > 0 {
        let rest = ids.drop_last();
        lemma_first_match(rest, prefix);
        match first_match(rest, prefix) {
            Some(id) => {
                let i = choose|i: int|
                    #![trigger rest[i]]
                    0 <= i < rest.len() && rest[i] == id && prefix.is_prefix_of(rest[i].hex())
                        && forall|j: int|
                        0 <= j < i ==> !prefix.is_prefix_of((#[trigger] rest[j]).hex());
                assert(ids[i] == rest[i]);
                assert forall|j: int| 0 <= j < i implies !prefix.is_prefix_of(
                    (#[trigger] ids[j]).hex(),
                ) by {
                    assert(ids[j] == rest[j]);
                }
            },
            None => {
                assert forall|j: int| 0 <= j < ids.len() - 1 implies !prefix.is_prefix_of(
                    (#[trigger] ids[j]).hex(),
                ) by {
                    assert(ids[j] == rest[j]);
                }
                if prefix.is_prefix_of(ids.last().hex()) {
                    assert(ids[ids.len() - 1] == ids.last());
                }
            },
        }
    }
}

/// A beginning that at most one identity of the store has is unambiguous:
/// the scan finds the same, or nothing, in whatever order the store offers
/// its identities.
pub proof fn lemma_unambiguous_scan(
    a: Seq<CommitIdentity>,
    b: Seq<CommitIdentity>,
    prefix: Seq<char>,
)
    requires
        forall|i: int| 0 <= i < a.len() ==> b.contains(#[trigger] a[i]),
        forall|i: int| 0 <= i < b.len() ==> a.contains(#[trigger] b[i]),
        forall|i: int, j: int|
            0 <= i < a.len() && 0 <= j < a.len() && prefix.is_prefix_of((#[trigger] a[i]).hex())
                && prefix.is_prefix_of((#[trigger] a[j]).hex()) ==> a[i] == a[j],
    ensures
        first_match(a, prefix) == first_match(b, prefix),
{
    lemma_first_match(a, prefix);
    lemma_first_match(b, prefix);
    match first_match(a, prefix) {
        Some(x) => {
            let i = choose|i: int|
                #![trigger a[i]]
                0 <= i < a.len() && a[i] == x && prefix.is_prefix_of(a[i].hex());
            assert(b.contains(a[i]));
            let m = choose|m: int| 0 <= m < b.len() && b[m] == a[i];
            assert(prefix.is_prefix_of(b[m].hex()));
            match first_match(b, prefix) {
                Some(y) => {
                    let j = choose|j: int|
                        #![trigger b[j]]
                        0 <= j < b.len() && b[j] == y && prefix.is_prefix_of(b[j].hex());
                    assert(a.contains(b[j]));
                    let k = choose|k: int| 0 <= k < a.len() && a[k] == b[j];
                    assert(prefix.is_prefix_of(a[k].hex()));
                    assert(a[k] == a[i]);
                },
                None => {},
            }
        },
        None => {
            match first_match(b, prefix) {
                Some(y) => {
                    let j = choose|j: int|
                        #![trigger b[j]]
                        0 <= j < b.len() && b[j] == y && prefix.is_prefix_of(b[j].hex());
                    assert(a.contains(b[j]));
                    let k = choose|k: int| 0 <= k < a.len() && a[k] == b[j];
                    assert(prefix.is_prefix_of(a[k].hex()));
                },
                None => {},
            }
        },
    }
}

/// A walk over the object store in search of an identity by its beginning.
/// The store is visited in whatever order it offers; the first match stays.
#[derive(Clone, Debug, PartialEq, Eq)]
pub struct PrefixScan {
    pub prefix: String,
    pub found: Option<CommitIdentity>,
}

impl PrefixScan {
    /// Starts a walk that has visited nothing and holds nothing.
    pub fn new(prefix: &str) -> (scan: PrefixScan)
        ensures
            scan.prefix@ == prefix@,
            scan.found is None,
    {
        PrefixScan { prefix: prefix.to_owned(), found: None }
    }

    /// Visits one identity and says whether the walk should go on: it
    /// should until a match is held.
    pub fn visit(&mut self, id: CommitIdentity) -> (more: bool)
        ensures
            final(self).prefix@ == old(self).prefix@,
            final(self).found == held_after(old(self).found, old(self).prefix@, id),
            more == (final(self).found is None),
    {
        if self.found.is_none() && id.has_prefix(self.prefix.as_str()) {
            self.found = Some(id);
        }
        self.found.is_none()
    }

    /// Ends the walk: what is held is the answer, and nothing held is a miss.
    pub fn finish(self) -> (answer: Lookup)
        ensures
            answer@ == match self.found {
                Some(id) => LookupModel::Found(id),
                None => LookupModel::Missing,
            },
    {
        match self.found {
            Some(id) => Lookup::Found(id),
            None => Lookup::Missing,
        }
    }
}

} // verus!
