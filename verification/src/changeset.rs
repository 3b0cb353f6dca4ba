//! Changesets: what differs between two tree states, file by file and line
//! by line, folded out of the patch lines that a diff walk reports.

use vstd::prelude::*;

verus! {

/// Origin marker of a line that the new side adds.
pub const ORIGIN_ADDED: char = '+';

/// Origin marker of a line that the new side drops.
pub const ORIGIN_REMOVED: char = '-';

/// Origin marker of a line that both sides share.
pub const ORIGIN_CONTEXT: char = ' ';

/// Origin marker of the notice that stands in for the content of a binary file.
pub const ORIGIN_BINARY: char = 'B';

/// What a line did to its file.
#[derive(Clone, Copy, Debug, PartialEq, Eq, Structural)]
pub enum LineKind {
    Added,
    Removed,
    Context,
}

/// What an origin marker announces.
#[derive(Clone, Copy, Debug, PartialEq, Eq)]
pub enum Origin {
    /// A line of content of the given kind.
    Line(LineKind),
    /// The file is binary: it has no lines to show.
    Binary,
    /// File headers, hunk headers and end-of-file notes: nothing to record.
    Other,
}

/// One line as the diff walk reports it: the path of the file it belongs to
/// (if the new side has one), its origin marker and its text.
#[derive(Clone, Debug, PartialEq, Eq)]
pub struct PatchLine {
    pub path: Option<String>,
    pub origin: char,
    pub content: String,
}

/// Mathematical content of a [`PatchLine`].
pub struct PatchLineModel {
    pub path: Option<Seq<char>>,
    pub origin: char,
    pub content: Seq<char>,
}

/// One recorded line of a file delta.
#[derive(Clone, Debug, PartialEq, Eq)]
pub struct LineRecord {
    pub kind: LineKind,
    pub text: String,
}

/// Mathematical content of a [`LineRecord`].
pub struct LineModel {
    pub kind: LineKind,
    pub text: Seq<char>,
}

/// The changes to one file. A binary file carries the marker and no lines.
#[derive(Clone, Debug, PartialEq, Eq)]
pub struct FileDelta {
    pub path: Option<String>,
    pub binary: bool,
    pub lines: Vec<LineRecord>,
}

/// Mathematical content of a [`FileDelta`].
pub struct FileModel {
    pub path: Option<Seq<char>>,
    pub binary: bool,
    pub lines: Seq<LineModel>,
}

/// An ordered sequence of file deltas. One without deltas is a valid result:
/// there is nothing to do.
#[derive(Clone, Debug, PartialEq, Eq)]
pub struct Changeset {
    pub files: Vec<FileDelta>,
}

pub open spec fn path_model(path: Option<String>) -> Option<Seq<char>> {
    match path {
        Some(p) => Some(p@),
        None => None,
    }
}

impl View for PatchLine {
    type V = PatchLineModel;

    open spec fn view(&self) -> PatchLineModel {
        PatchLineModel {
            path: path_model(self.path),
            origin: self.origin,
            content: self.content@,
        }
    }
}

impl View for LineRecord {
    type V = LineModel;

    open spec fn view(&self) -> LineModel {
        LineModel { kind: self.kind, text: self.text@ }
    }
}

impl View for FileDelta {
    type V = FileModel;

    open spec fn view(&self) -> FileModel {
        FileModel {
            path: path_model(self.path),
            binary: self.binary,
            lines: self.lines@.map_values(|line: LineRecord| line@),
        }
    }
}

impl View for Changeset {
    type V = Seq<FileModel>;

    open spec fn view(&self) -> Seq<FileModel> {
        self.files@.map_values(|file: FileDelta| file@)
    }
}

/// The patch lines of a walk, as mathematical values.
pub open spec fn patch_model(events: Seq<PatchLine>) -> Seq<PatchLineModel> {
    events.map_values(|event: PatchLine| event@)
}

/// The meaning of an origin marker.
pub open spec fn classify(origin: char) -> Origin {
    if origin == ORIGIN_ADDED {
        Origin::Line(LineKind::Added)
    } else if origin == ORIGIN_REMOVED {
        Origin::Line(LineKind::Removed)
    } else if origin == ORIGIN_CONTEXT {
        Origin::Line(LineKind::Context)
    } else if origin == ORIGIN_BINARY {
        Origin::Binary
    } else {
        Origin::Other
    }
}

/// A delta for `path` that has seen no line yet.
pub open spec fn fresh(path: Option<Seq<char>>) -> FileModel {
    FileModel { path, binary: false, lines: Seq::empty() }
}

/// The delta after one more line of its file. A content line is appended
/// unless the file is known to be binary; the binary notice discards what was
/// recorded; anything else leaves the delta alone.
pub open spec fn applied(delta: FileModel, origin: char, content: Seq<char>) -> FileModel {
    match classify(origin) {
        Origin::Line(kind) => if delta.binary {
            delta
        } else {
            FileModel { lines: delta.lines.push(LineModel { kind, text: content }), ..delta }
        },
        Origin::Binary => FileModel { binary: true, lines: Seq::empty(), ..delta },
        Origin::Other => delta,
    }
}

/// Whether `event` belongs to the delta that was reported last.
pub open spec fn continues(files: Seq<FileModel>, event: PatchLineModel) -> bool {
    files.len() > 0 && files.last().path == event.path
}

/// The deltas after one more patch line: it goes to the last delta when it
/// names the same file, and opens a new delta otherwise.
pub open spec fn absorbed(files: Seq<FileModel>, event: PatchLineModel) -> Seq<FileModel> {
    if continues(files, event) {
        files.drop_last().push(applied(files.last(), event.origin, event.content))
    } else {
        files.push(applied(fresh(event.path), event.origin, event.content))
    }
}

/// The changeset that a walk's patch lines amount to: a left fold of
/// [`absorbed`] over the lines in the order reported.
pub open spec fn extracted(events: Seq<PatchLineModel>) -> Seq<FileModel>
    decreases events.len(),
{
    if events.len() == 0 {
        Seq::empty()
    } else {
        absorbed(extracted(events.drop_last()), events.last())
    }
}

/// A binary delta shows no lines.
pub open spec fn delta_well_formed(delta: FileModel) -> bool {
    delta.binary ==> delta.lines.len() == 0
}

/// Every delta is well formed and neighbours name different files.
pub open spec fn well_formed(files: Seq<FileModel>) -> bool {
    &&& forall|i: int| 0 <= i < files.len() ==> delta_well_formed(#[trigger] files[i])
    &&& forall|i: int| 0 < i < files.len() ==> files[i - 1].path != (#[trigger] files[i]).path
}

/// The paths that the deltas name, in order; a delta without a path adds none.
pub open spec fn listed_paths(files: Seq<FileModel>) -> Seq<Seq<char>>
    decreases files.len(),
{
    if files.len() == 0 {
        Seq::empty()
    } else {
        match files.last().path {
            Some(p) => listed_paths(files.drop_last()).push(p),
            None => listed_paths(files.drop_last()),
        }
    }
}

/// The listed paths are exactly the paths that some delta names.
pub proof fn lemma_listed_paths(files: Seq<FileModel>, path: Seq<char>)
    ensures
        listed_paths(files).contains(path) <==> exists|i: int|
            0 <= i < files.len() && (#[trigger] files[i]).path == Some(path),
    decreases files.len(),
{
    if files.len() > 0 {
        let rest = files.drop_last();
        let listed = listed_paths(files);
        lemma_listed_paths(rest, path);
        if listed.contains(path) {
            let k = choose|k: int| 0 <= k < listed.len() && listed[k] == path;
            if k < listed_paths(rest).len() {
                assert(listed_paths(rest)[k] == path);
                let i = choose|i: int| 0 <= i < rest.len() && (#[trigger] rest[i]).path == Some(path);
                assert(files[i] == rest[i]);
            } else {
                assert(files[files.len() - 1].path == Some(path));
            }
        }
        if exists|i: int| 0 <= i < files.len() && (#[trigger] files[i]).path == Some(path) {
            let i = choose|i: int| 0 <= i < files.len() && (#[trigger] files[i]).path == Some(path);
            if i < rest.len() {
                assert(rest[i] == files[i]);
                let k = choose|k: int|
                    0 <= k < listed_paths(rest).len() && listed_paths(rest)[k] == path;
                assert(listed[k] == path);
            } else {
                assert(listed[listed.len() - 1] == path);
            }
        }
    }
}

/// The recorded lines of all deltas, in order.
pub open spec fn all_lines(files: Seq<FileModel>) -> Seq<LineModel>
    decreases files.len(),
{
    if files.len() == 0 {
        Seq::empty()
    } else {
        all_lines(files.drop_last()) + files.last().lines
    }
}

/// The content lines among the patch lines, in order, each with its kind.
pub open spec fn content_lines(events: Seq<PatchLineModel>) -> Seq<LineModel>
    decreases events.len(),
{
    if events.len() == 0 {
        Seq::empty()
    } else {
        match classify(events.last().origin) {
            Origin::Line(kind) => content_lines(events.drop_last()).push(
                LineModel { kind, text: events.last().content },
            ),
            _ => content_lines(events.drop_last()),
        }
    }
}

/// Where no file is announced as binary, extraction neither loses nor
/// invents nor reorders a line: read file after file, the recorded lines are
/// the content lines of the walk.
pub proof fn lemma_extraction_keeps_lines(events: Seq<PatchLineModel>)
    requires
        forall|i: int| 0 <= i < events.len() ==> !(classify((#[trigger] events[i]).origin) is Binary),
    ensures
        all_lines(extracted(events)) == content_lines(events),
        forall|i: int| 0 <= i < extracted(events).len() ==> !(#[trigger] extracted(events)[i]).binary,
    decreases events.len(),
{
    if events.len() > 0 {
        let earlier = events.drop_last();
        let event = events.last();
        assert forall|i: int| 0 <= i < earlier.len() implies !(classify(
            (#[trigger] earlier[i]).origin,
        ) is Binary) by {
            assert(earlier[i] == events[i]);
        }
        assert(event == events[events.len() - 1]);
        lemma_extraction_keeps_lines(earlier);
        let before = extracted(earlier);
        let after = extracted(events);
        if continues(before, event) {
            let changed = applied(before.last(), event.origin, event.content);
            assert(before.last() == before[before.len() - 1]);
            assert(after.drop_last() =~= before.drop_last());
            assert(after.last() == changed);
            assert(all_lines(before) == all_lines(before.drop_last()) + before.last().lines);
            assert(all_lines(after) =~= content_lines(events));
            assert forall|i: int| 0 <= i < after.len() implies !(#[trigger] after[i]).binary by {
                if i < before.len() - 1 {
                    assert(after[i] == before[i]);
                }
            }
        } else {
            let opened = applied(fresh(event.path), event.origin, event.content);
            assert(after.drop_last() =~= before);
            assert(after.last() == opened);
            assert(all_lines(after) =~= content_lines(events));
            assert forall|i: int| 0 <= i < after.len() implies !(#[trigger] after[i]).binary by {
                if i < before.len() {
                    assert(after[i] == before[i]);
                }
            }
        }
    }
}

/// What folding patch lines preserves: binary deltas stay empty and two
/// neighbouring deltas never name the same file.
pub proof fn lemma_extracted_well_formed(events: Seq<PatchLineModel>)
    ensures
        well_formed(extracted(events)),
    decreases events.len(),
{
    if events.len() > 0 {
        lemma_extracted_well_formed(events.drop_last());
        let before = extracted(events.drop_last());
        let after = extracted(events);
        let event = events.last();
        if continues(before, event) {
            assert forall|i: int| 0 <= i < after.len() implies delta_well_formed(
                #[trigger] after[i],
            ) by {
                if i < before.len() - 1 {
                    assert(after[i] == before[i]);
                }
            }
            assert forall|i: int| 0 < i < after.len() implies after[i - 1].path != (
            #[trigger] after[i]).path by {
                assert(after[i].path == before[i].path);
                assert(after[i - 1].path == before[i - 1].path);
            }
        } else {
            assert forall|i: int| 0 <= i < after.len() implies delta_well_formed(
                #[trigger] after[i],
            ) by {
                if i < before.len() {
                    assert(after[i] == before[i]);
                }
            }
            assert forall|i: int| 0 < i < after.len() implies after[i - 1].path != (
            #[trigger] after[i]).path by {
                if i < before.len() {
                    assert(after[i] == before[i]);
                    assert(after[i - 1] == before[i - 1]);
                } else {
                    assert(after[i - 1] == before.last());
                }
            }
        }
    }
}

/// Reads an origin marker.
pub fn classify_origin(origin: char) -> (r: Origin)
    ensures
        r == classify(origin),
{
    if origin == ORIGIN_ADDED {
        Origin::Line(LineKind::Added)
    } else if origin == ORIGIN_REMOVED {
        Origin::Line(LineKind::Removed)
    } else if origin == ORIGIN_CONTEXT {
        Origin::Line(LineKind::Context)
    } else if origin == ORIGIN_BINARY {
        Origin::Binary
    } else {
        Origin::Other
    }
}

/// Whether two optional paths spell the same file.
pub fn same_path(a: &Option<String>, b: &Option<String>) -> (r: bool)
    ensures
        r == (path_model(*a) == path_model(*b)),
{
    match a {
        Some(x) => match b {
            Some(y) => {
                let equal = *x == *y;
                assert(equal == (x@ == y@));
                equal
            },
            None => false,
        },
        None => b.is_none(),
    }
}

fn copy_path(path: &Option<String>) -> (r: Option<String>)
    ensures
        path_model(r) == path_model(*path),
{
    match path {
        Some(p) => Some(p.clone()),
        None => None,
    }
}

impl FileDelta {
    /// A delta for `path` that has seen no line yet.
    pub fn new(path: Option<String>) -> (delta: FileDelta)
        ensures
            delta@ == fresh(path_model(path)),
    {
        let delta = FileDelta { path, binary: false, lines: Vec::new() };
        assert(delta@.lines =~= Seq::empty());
        delta
    }

    /// Takes in one more line of this file.
    pub fn absorb(&mut self, origin: char, content: &str)
        ensures
            final(self)@ == applied(old(self)@, origin, content@),
    {
        match classify_origin(origin) {
            Origin::Line(kind) => {
                if !self.binary {
                    self.lines.push(LineRecord { kind, text: content.to_owned() });
                    assert(self@.lines =~= old(self)@.lines.push(
                        LineModel { kind, text: content@ },
                    ));
                }
            },
            Origin::Binary => {
                self.binary = true;
                self.lines = Vec::new();
                assert(self@.lines =~= Seq::empty());
            },
            Origin::Other => {},
        }
    }
}

impl Changeset {
    /// What every extracted changeset satisfies.
    pub open spec fn well_formed(&self) -> bool {
        well_formed(self@)
    }

    /// Whether there is no delta at all.
    pub fn is_empty(&self) -> (r: bool)
        ensures
            r == (self@.len() == 0),
    {
        self.files.len() == 0
    }

    /// The file paths that the changeset names, in order.
    pub fn paths(&self) -> (paths: Vec<String>)
        ensures
            paths@.map_values(|p: String| p@) == listed_paths(self@),
    {
        let mut paths: Vec<String> = Vec::new();
        let mut i: usize = 0;
        while i < self.files.len()
            invariant
                i <= self.files.len(),
                paths@.map_values(|p: String| p@) == listed_paths(self@.take(i as int)),
            decreases self.files.len() - i,
        {
            let ghost before = paths@.map_values(|p: String| p@);
            assert(self@.take(i + 1).drop_last() =~= self@.take(i as int));
            assert(self@.take(i + 1).last() == self.files[i as int]@);
            match &self.files[i].path {
                Some(p) => {
                    paths.push(p.clone());
                    assert(paths@.map_values(|p: String| p@) =~= before.push(p@));
                },
                None => {},
            }
            i += 1;
        }
        assert(self@.take(i as int) =~= self@);
        paths
    }
}

/// Folds the patch lines of a diff walk into a changeset.
pub fn extract(events: &Vec<PatchLine>) -> (changeset: Changeset)
    ensures
        changeset@ == extracted(patch_model(events@)),
        changeset.well_formed(),
{
    let ghost model = patch_model(events@);
    let mut files: Vec<FileDelta> = Vec::new();
    let mut i: usize = 0;
    assert(files@.map_values(|file: FileDelta| file@) =~= extracted(model.take(0)));
    while i < events.len()
        invariant
            i <= events.len(),
            model == patch_model(events@),
            files@.map_values(|file: FileDelta| file@) == extracted(model.take(i as int)),
        decreases events.len() - i,
    {
        let ghost before = files@.map_values(|file: FileDelta| file@);
        let event = &events[i];
        assert(model.take(i + 1).drop_last() =~= model.take(i as int));
        assert(model.take(i + 1).last() == event@);
        let last = files.pop();
        let mut current = match last {
            Some(delta) => {
                assert(delta@ == before.last());
                assert(files@.map_values(|file: FileDelta| file@) =~= before.drop_last());
                if same_path(&delta.path, &event.path) {
                    delta
                } else {
                    files.push(delta);
                    assert(files@.map_values(|file: FileDelta| file@) =~= before);
                    FileDelta::new(copy_path(&event.path))
                }
            },
            None => {
                assert(before.len() == 0);
                FileDelta::new(copy_path(&event.path))
            },
        };
        let ghost kept = files@.map_values(|file: FileDelta| file@);
        current.absorb(event.origin, event.content.as_str());
        files.push(current);
        assert(files@.map_values(|file: FileDelta| file@) =~= kept.push(current@));
        i += 1;
    }
    assert(model.take(i as int) =~= model);
    proof {
        lemma_extracted_well_formed(model);
    }
    Changeset { files }
}

} // verus!
