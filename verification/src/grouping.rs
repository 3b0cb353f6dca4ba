//! Validation of the service's answer to the grouping task.
//!
//! The answer is untrusted text. It is first read strictly as a JSON array of
//! arrays of strings, then every path in every group is held against the
//! paths that the changesets really name. Nothing is repaired: a path that
//! occurs twice, or a known path that occurs nowhere, passes through.

use vstd::prelude::*;
use vstd::string::*;

verus! {

/// What opens the message for an answer that could not be read.
pub const MALFORMED: &'static str =
    "Failed to parse AI response as JSON array of file groups. Response was: ";

/// What opens the message for an answer that names an unknown file.
pub const UNKNOWN_FILE: &'static str = "AI response groups a file that is not among the changes: ";

/// What stands between the unknown file and the raw answer.
pub const RESPONSE_WAS: &'static str = ". Response was: ";

/// `serde_json::Error`, declared so that it can be carried through; nothing
/// is read out of it.
#[verifier::external_type_specification]
#[verifier::external_body]
pub struct ExJsonError(serde_json::Error);

/// File paths sorted into groups, every one of them known.
#[derive(Clone, Debug, PartialEq, Eq)]
pub struct GroupingResult {
    pub groups: Vec<Vec<String>>,
}

/// Why an answer was turned down. Both kinds keep the raw answer.
#[derive(Clone, Debug, PartialEq, Eq)]
pub enum ValidationError {
    /// Not JSON, or not an array of arrays of strings.
    MalformedResponse { response: String },
    /// A group names a path that no changeset has.
    UnknownFileInGroup { path: String, response: String },
}

/// Mathematical content of a [`ValidationError`].
pub enum ValidationErrorModel {
    MalformedResponse { response: Seq<char> },
    UnknownFileInGroup { path: Seq<char>, response: Seq<char> },
}

/// Groups of paths as mathematical values.
pub open spec fn groups_model(groups: Seq<Vec<String>>) -> Seq<Seq<Seq<char>>> {
    groups.map_values(|group: Vec<String>| group@.map_values(|path: String| path@))
}

/// The set of paths that a list of known paths spells.
pub open spec fn known_set(known: Seq<String>) -> Set<Seq<char>> {
    known.map_values(|path: String| path@).to_set()
}

impl View for GroupingResult {
    type V = Seq<Seq<Seq<char>>>;

    open spec fn view(&self) -> Seq<Seq<Seq<char>>> {
        groups_model(self.groups@)
    }
}

impl View for ValidationError {
    type V = ValidationErrorModel;

    open spec fn view(&self) -> ValidationErrorModel {
        match self {
            ValidationError::MalformedResponse { response } => {
                ValidationErrorModel::MalformedResponse { response: response@ }
            },
            ValidationError::UnknownFileInGroup { path, response } => {
                ValidationErrorModel::UnknownFileInGroup { path: path@, response: response@ }
            },
        }
    }
}

/// What a strict JSON reading of `text` as an array of arrays of strings
/// yields; `None` where `text` is no such document.
pub uninterp spec fn parsed_groups(text: Seq<char>) -> Option<Seq<Seq<Seq<char>>>>;

/// Every path of every group is a known one.
pub open spec fn all_known(groups: Seq<Seq<Seq<char>>>, known: Set<Seq<char>>) -> bool {
    forall|g: int, p: int|
        0 <= g < groups.len() && 0 <= p < groups[g].len() ==> known.contains(
            #[trigger] groups[g][p],
        )
}

/// Position `(g, p)` holds an unknown path and no position before it does,
/// reading group by group and each group front to back.
pub open spec fn first_unknown_at(
    groups: Seq<Seq<Seq<char>>>,
    known: Set<Seq<char>>,
    g: int,
    p: int,
) -> bool {
    &&& 0 <= g < groups.len()
    &&& 0 <= p < groups[g].len()
    &&& !known.contains(groups[g][p])
    &&& forall|q: int| 0 <= q < p ==> known.contains(#[trigger] groups[g][q])
    &&& forall|h: int, q: int|
        0 <= h < g && 0 <= q < groups[h].len() ==> known.contains(#[trigger] groups[h][q])
}

/// The verdict on parsed groups: they are handed back unchanged when all
/// their paths are known; otherwise the first unknown path is reported
/// together with the raw answer.
pub open spec fn is_verdict(
    groups: Seq<Seq<Seq<char>>>,
    known: Set<Seq<char>>,
    response: Seq<char>,
    verdict: Result<GroupingResult, ValidationError>,
) -> bool {
    match verdict {
        Ok(result) => result@ == groups && all_known(groups, known),
        Err(error) => exists|g: int, p: int|
            #![trigger groups[g][p]]
            first_unknown_at(groups, known, g, p) && error@
                == (ValidationErrorModel::UnknownFileInGroup { path: groups[g][p], response }),
    }
}

/// The verdict on a raw answer: malformed where the strict reading fails,
/// and the verdict on the groups read otherwise.
pub open spec fn is_validation(
    response: Seq<char>,
    known: Set<Seq<char>>,
    verdict: Result<GroupingResult, ValidationError>,
) -> bool {
    match parsed_groups(response) {
        None => verdict is Err && verdict->Err_0@ == (ValidationErrorModel::MalformedResponse {
            response,
        }),
        Some(groups) => is_verdict(groups, known, response, verdict),
    }
}

/// Calls `serde_json::from_str` at the type `Vec<Vec<String>>`. The call
/// succeeds exactly on the documents that [`parsed_groups`] accepts and then
/// returns the groups it names; nothing is claimed about which documents
/// those are.
#[verifier::external_body]
fn parse_groups(text: &str) -> (r: Result<Vec<Vec<String>>, serde_json::Error>)
    ensures
        match r {
            Ok(groups) => parsed_groups(text@) == Some(groups_model(groups@)),
            Err(_) => parsed_groups(text@) is None,
        },
{
    serde_json::from_str::<Vec<Vec<String>>>(text)
}

/// Whether `path` is one of the known paths.
pub fn is_known(known: &Vec<String>, path: &String) -> (r: bool)
    ensures
        r == known_set(known@).contains(path@),
{
    let ghost spelled = known@.map_values(|path: String| path@);
    let mut i: usize = 0;
    while i < known.len()
        invariant
            i <= known.len(),
            spelled == known@.map_values(|path: String| path@),
            forall|j: int| 0 <= j < i ==> spelled[j] != path@,
        decreases known.len() - i,
    {
        if known[i] == *path {
            assert(spelled[i as int] == path@);
            return true;
        }
        i += 1;
    }
    false
}

impl GroupingResult {
    /// The result for a changeset without deltas: no groups.
    pub fn empty() -> (result: GroupingResult)
        ensures
            result@.len() == 0,
    {
        GroupingResult { groups: Vec::new() }
    }

    /// Number of groups.
    pub fn len(&self) -> (n: usize)
        ensures
            n == self@.len(),
    {
        self.groups.len()
    }
}

impl ValidationError {
    /// The message shown to the user; it ends with the raw answer.
    pub fn message(&self) -> (text: String)
        ensures
            text@ == match self@ {
                ValidationErrorModel::MalformedResponse { response } => MALFORMED@ + response,
                ValidationErrorModel::UnknownFileInGroup { path, response } => UNKNOWN_FILE@ + path
                    + RESPONSE_WAS@ + response,
            },
    {
        match self {
            ValidationError::MalformedResponse { response } => {
                let mut text = String::from_str(MALFORMED);
                text.append(response.as_str());
                text
            },
            ValidationError::UnknownFileInGroup { path, response } => {
                let mut text = String::from_str(UNKNOWN_FILE);
                text.append(path.as_str());
                text.append(RESPONSE_WAS);
                text.append(response.as_str());
                text
            },
        }
    }

    /// The raw answer that was turned down.
    pub fn response(&self) -> (text: &str)
        ensures
            text@ == match self@ {
                ValidationErrorModel::MalformedResponse { response } => response,
                ValidationErrorModel::UnknownFileInGroup { response, .. } => response,
            },
    {
        match self {
            ValidationError::MalformedResponse { response } => response.as_str(),
            ValidationError::UnknownFileInGroup { response, .. } => response.as_str(),
        }
    }
}

/// Holds parsed groups against the known paths.
pub fn check_groups(groups: Vec<Vec<String>>, known: &Vec<String>, response: &str) -> (verdict:
    Result<GroupingResult, ValidationError>)
    ensures
        is_verdict(groups_model(groups@), known_set(known@), response@, verdict),
        verdict is Ok <==> all_known(groups_model(groups@), known_set(known@)),
{
    let ghost model = groups_model(groups@);
    let ghost set = known_set(known@);
    let mut g: usize = 0;
    while g < groups.len()
        invariant
            g <= groups.len(),
            model == groups_model(groups@),
            set == known_set(known@),
            forall|h: int, q: int|
                0 <= h < g && 0 <= q < model[h].len() ==> set.contains(#[trigger] model[h][q]),
        decreases groups.len() - g,
    {
        let group = &groups[g];
        assert(model[g as int] == group@.map_values(|path: String| path@));
        let mut p: usize = 0;
        while p < group.len()
            invariant
                p <= group.len(),
                g < groups.len(),
                model == groups_model(groups@),
                model[g as int] == group@.map_values(|path: String| path@),
                set == known_set(known@),
                forall|q: int| 0 <= q < p ==> set.contains(#[trigger] model[g as int][q]),
                forall|h: int, q: int|
                    0 <= h < g && 0 <= q < model[h].len() ==> set.contains(
                        #[trigger] model[h][q],
                    ),
            decreases group.len() - p,
        {
            if !is_known(known, &group[p]) {
                let error = ValidationError::UnknownFileInGroup {
                    path: group[p].clone(),
                    response: response.to_owned(),
                };
                assert(model[g as int][p as int] == group[p as int]@);
                assert(first_unknown_at(model, set, g as int, p as int));
                return Err(error);
            }
            assert(model[g as int][p as int] == group[p as int]@);
            p += 1;
        }
        g += 1;
    }
    let result = GroupingResult { groups };
    Ok(result)
}

/// Reads the service's answer to the grouping task and holds it against the
/// known paths. A result that comes back holds known paths only.
pub fn validate_grouping(response_text: &str, known: &Vec<String>) -> (verdict: Result<
    GroupingResult,
    ValidationError,
>)
    ensures
        is_validation(response_text@, known_set(known@), verdict),
        verdict matches Ok(result) ==> all_known(result@, known_set(known@)),
{
    match parse_groups(response_text) {
        Ok(groups) => check_groups(groups, known, response_text),
        Err(_) => Err(ValidationError::MalformedResponse { response: response_text.to_owned() }),
    }
}

} // verus!
