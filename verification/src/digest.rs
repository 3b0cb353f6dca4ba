//! Digests: the text that stands for one or more changesets in a prompt.
//!
//! A digest is the concatenation, in input order, of one entry per recorded
//! line. How an entry looks depends on the layout: the plain layout keeps
//! every line, context included, as marker and text; the other two keep only
//! added and removed lines of files that have a path, and name the file.

use vstd::prelude::*;
use vstd::string::*;
use crate::changeset::{
    all_lines, classify, content_lines, extracted, lemma_extraction_keeps_lines, path_model,
    Changeset, FileDelta, FileModel, LineKind, LineModel, LineRecord, PatchLineModel,
};

verus! {

/// How the lines of a changeset are written down.
#[derive(Clone, Debug, PartialEq, Eq)]
pub enum Layout {
    /// Marker and text, for every line.
    Plain,
    /// Marker, blank, text and the path in brackets, one entry per row.
    Listed,
    /// Provenance tag, blank, marker, text and the path in brackets, one entry per row.
    Tagged(String),
}

/// Mathematical content of a [`Layout`].
pub enum LayoutModel {
    Plain,
    Listed,
    Tagged(Seq<char>),
}

impl View for Layout {
    type V = LayoutModel;

    open spec fn view(&self) -> LayoutModel {
        match self {
            Layout::Plain => LayoutModel::Plain,
            Layout::Listed => LayoutModel::Listed,
            Layout::Tagged(tag) => LayoutModel::Tagged(tag@),
        }
    }
}

/// A changeset together with the tag that says where it comes from.
#[derive(Clone, Copy, Debug)]
pub struct TaggedChangeset<'a> {
    pub changeset: &'a Changeset,
    pub tag: &'a str,
}

/// Mathematical content of a [`TaggedChangeset`].
pub struct TaggedModel {
    pub files: Seq<FileModel>,
    pub tag: Seq<char>,
}

impl<'a> View for TaggedChangeset<'a> {
    type V = TaggedModel;

    open spec fn view(&self) -> TaggedModel {
        TaggedModel { files: self.changeset@, tag: self.tag@ }
    }
}

/// Prompt-ready text built from changesets. An empty digest means that
/// there is nothing to summarize.
#[derive(Clone, Debug, PartialEq, Eq)]
pub struct Digest {
    pub text: String,
}

impl View for Digest {
    type V = Seq<char>;

    open spec fn view(&self) -> Seq<char> {
        self.text@
    }
}

/// The sign that stands for a line's kind.
pub open spec fn marker(kind: LineKind) -> Seq<char> {
    match kind {
        LineKind::Added => "+"@,
        LineKind::Removed => "-"@,
        LineKind::Context => " "@,
    }
}

/// Whether the layout has an entry for this line of a file with this path.
pub open spec fn shown(layout: LayoutModel, path: Option<Seq<char>>, line: LineModel) -> bool {
    layout is Plain || (path is Some && line.kind != LineKind::Context)
}

/// The entry of one line; empty where the layout leaves the line out.
pub open spec fn entry(layout: LayoutModel, path: Option<Seq<char>>, line: LineModel) -> Seq<
    char,
> {
    if !shown(layout, path, line) {
        Seq::empty()
    } else {
        match layout {
            LayoutModel::Plain => marker(line.kind) + line.text,
            LayoutModel::Listed => marker(line.kind) + " "@ + line.text + " ("@ + path->0
                + ")\n"@,
            LayoutModel::Tagged(tag) => tag + " "@ + marker(line.kind) + line.text + " ("@
                + path->0 + ")\n"@,
        }
    }
}

/// The entries of the lines of one file, in order.
pub open spec fn lines_text(
    layout: LayoutModel,
    path: Option<Seq<char>>,
    lines: Seq<LineModel>,
) -> Seq<char>
    decreases lines.len(),
{
    if lines.len() == 0 {
        Seq::empty()
    } else {
        lines_text(layout, path, lines.drop_last()) + entry(layout, path, lines.last())
    }
}

/// The entries of all files of a changeset, in order.
pub open spec fn changeset_text(layout: LayoutModel, files: Seq<FileModel>) -> Seq<char>
    decreases files.len(),
{
    if files.len() == 0 {
        Seq::empty()
    } else {
        changeset_text(layout, files.drop_last()) + lines_text(
            layout,
            files.last().path,
            files.last().lines,
        )
    }
}

/// The tagged entries of several changesets, in input order.
pub open spec fn combined_text(parts: Seq<TaggedModel>) -> Seq<char>
    decreases parts.len(),
{
    if parts.len() == 0 {
        Seq::empty()
    } else {
        combined_text(parts.drop_last()) + changeset_text(
            LayoutModel::Tagged(parts.last().tag),
            parts.last().files,
        )
    }
}

/// Changesets without a single delta give an empty digest, whatever their tags.
pub proof fn lemma_no_deltas_no_digest(parts: Seq<TaggedModel>)
    requires
        forall|i: int| 0 <= i < parts.len() ==> (#[trigger] parts[i]).files.len() == 0,
    ensures
        combined_text(parts).len() == 0,
    decreases parts.len(),
{
    if parts.len() > 0 {
        lemma_no_deltas_no_digest(parts.drop_last());
        assert(parts.last() == parts[parts.len() - 1]);
    }
}

/// Digests follow the input sequence: what two runs of changesets give one
/// after the other is what the first gives, followed by what the second gives.
pub proof fn lemma_combined_text_concat(first: Seq<TaggedModel>, second: Seq<TaggedModel>)
    ensures
        combined_text(first + second) == combined_text(first) + combined_text(second),
    decreases second.len(),
{
    if second.len() == 0 {
        assert(first + second =~= first);
    } else {
        lemma_combined_text_concat(first, second.drop_last());
        assert((first + second).drop_last() =~= first + second.drop_last());
        assert((first + second).last() == second.last());
    }
}

/// The entries of two runs of lines of one file, one after the other, are
/// the entries of the first followed by those of the second.
pub proof fn lemma_lines_text_concat(
    layout: LayoutModel,
    path: Option<Seq<char>>,
    first: Seq<LineModel>,
    second: Seq<LineModel>,
)
    ensures
        lines_text(layout, path, first + second) == lines_text(layout, path, first) + lines_text(
            layout,
            path,
            second,
        ),
    decreases second.len(),
{
    if second.len() == 0 {
        assert(first + second =~= first);
    } else {
        lemma_lines_text_concat(layout, path, first, second.drop_last());
        assert((first + second).drop_last() =~= first + second.drop_last());
        assert((first + second).last() == second.last());
    }
}

/// The plain layout does not look at the path.
pub proof fn lemma_plain_ignores_path(
    path: Option<Seq<char>>,
    other: Option<Seq<char>>,
    lines: Seq<LineModel>,
)
    ensures
        lines_text(LayoutModel::Plain, path, lines) == lines_text(LayoutModel::Plain, other, lines),
    decreases lines.len(),
{
    if lines.len() > 0 {
        lemma_plain_ignores_path(path, other, lines.drop_last());
    }
}

/// The plain digest is the flattened form of a changeset: it is made of the
/// recorded lines of all files in order, and of nothing else.
pub proof fn lemma_plain_text_is_flat(files: Seq<FileModel>)
    ensures
        changeset_text(LayoutModel::Plain, files) == lines_text(
            LayoutModel::Plain,
            None,
            all_lines(files),
        ),
    decreases files.len(),
{
    if files.len() > 0 {
        lemma_plain_text_is_flat(files.drop_last());
        lemma_plain_ignores_path(files.last().path, None, files.last().lines);
        lemma_lines_text_concat(
            LayoutModel::Plain,
            None,
            all_lines(files.drop_last()),
            files.last().lines,
        );
    }
}

/// Where no file is announced as binary, the plain digest of what a walk
/// amounts to is the walk's content lines, each as marker and text, in the
/// order reported.
pub proof fn lemma_plain_digest_of_walk(events: Seq<PatchLineModel>)
    requires
        forall|i: int| 0 <= i < events.len() ==> !(classify((#[trigger] events[i]).origin) is Binary),
    ensures
        changeset_text(LayoutModel::Plain, extracted(events)) == lines_text(
            LayoutModel::Plain,
            None,
            content_lines(events),
        ),
{
    lemma_extraction_keeps_lines(events);
    lemma_plain_text_is_flat(extracted(events));
}

/// The entries of one file are empty exactly when the layout shows none of
/// its recorded lines.
pub proof fn lemma_empty_lines_text(
    layout: LayoutModel,
    path: Option<Seq<char>>,
    lines: Seq<LineModel>,
)
    ensures
        lines_text(layout, path, lines).len() == 0 <==> forall|i: int|
            0 <= i < lines.len() ==> !shown(layout, path, #[trigger] lines[i]),
    decreases lines.len(),
{
    reveal_strlit("+");
    reveal_strlit("-");
    reveal_strlit(" ");
    if lines.len() > 0 {
        lemma_empty_lines_text(layout, path, lines.drop_last());
        let rest = lines.drop_last();
        if lines_text(layout, path, lines).len() == 0 {
            assert forall|i: int| 0 <= i < lines.len() implies !shown(
                layout,
                path,
                #[trigger] lines[i],
            ) by {
                if i < rest.len() {
                    assert(rest[i] == lines[i]);
                }
            }
        } else {
            if forall|i: int| 0 <= i < lines.len() ==> !shown(layout, path, #[trigger] lines[i]) {
                assert forall|i: int| 0 <= i < rest.len() implies !shown(
                    layout,
                    path,
                    #[trigger] rest[i],
                ) by {
                    assert(rest[i] == lines[i]);
                }
                assert(!shown(layout, path, lines[lines.len() - 1]));
            }
        }
    }
}

fn marker_text(kind: LineKind) -> (r: &'static str)
    ensures
        r@ == marker(kind),
{
    match kind {
        LineKind::Added => "+",
        LineKind::Removed => "-",
        LineKind::Context => " ",
    }
}

fn append_entry(out: &mut String, layout: &Layout, path: &Option<String>, line: &LineRecord)
    ensures
        final(out)@ == old(out)@ + entry(layout@, path_model(*path), line@),
{
    match layout {
        Layout::Plain => {
            out.append(marker_text(line.kind));
            out.append(line.text.as_str());
            assert(out@ =~= old(out)@ + (marker(line.kind) + line.text@));
        },
        Layout::Listed => {
            match (path, line.kind) {
                (Some(p), LineKind::Added) | (Some(p), LineKind::Removed) => {
                    out.append(marker_text(line.kind));
                    out.append(" ");
                    out.append(line.text.as_str());
                    out.append(" (");
                    out.append(p.as_str());
                    out.append(")\n");
                    assert(out@ =~= old(out)@ + (marker(line.kind) + " "@ + line.text@ + " ("@
                        + p@ + ")\n"@));
                },
                _ => {
                    assert(out@ =~= old(out)@ + Seq::<char>::empty());
                },
            }
        },
        Layout::Tagged(tag) => {
            match (path, line.kind) {
                (Some(p), LineKind::Added) | (Some(p), LineKind::Removed) => {
                    out.append(tag.as_str());
                    out.append(" ");
                    out.append(marker_text(line.kind));
                    out.append(line.text.as_str());
                    out.append(" (");
                    out.append(p.as_str());
                    out.append(")\n");
                    assert(out@ =~= old(out)@ + (tag@ + " "@ + marker(line.kind) + line.text@
                        + " ("@ + p@ + ")\n"@));
                },
                _ => {
                    assert(out@ =~= old(out)@ + Seq::<char>::empty());
                },
            }
        },
    }
}

fn append_delta(out: &mut String, layout: &Layout, delta: &FileDelta)
    ensures
        final(out)@ == old(out)@ + lines_text(layout@, delta@.path, delta@.lines),
{
    let ghost lines = delta@.lines;
    let mut i: usize = 0;
    assert(out@ =~= old(out)@ + lines_text(layout@, delta@.path, lines.take(0)));
    while i < delta.lines.len()
        invariant
            i <= delta.lines.len(),
            lines == delta@.lines,
            out@ == old(out)@ + lines_text(layout@, delta@.path, lines.take(i as int)),
        decreases delta.lines.len() - i,
    {
        assert(lines.take(i + 1).drop_last() =~= lines.take(i as int));
        assert(lines.take(i + 1).last() == delta.lines[i as int]@);
        let ghost before = out@;
        append_entry(out, layout, &delta.path, &delta.lines[i]);
        assert(out@ =~= old(out)@ + lines_text(layout@, delta@.path, lines.take(i + 1)));
        i += 1;
    }
    assert(lines.take(i as int) =~= lines);
}

fn append_changeset(out: &mut String, layout: &Layout, changeset: &Changeset)
    ensures
        final(out)@ == old(out)@ + changeset_text(layout@, changeset@),
{
    let ghost files = changeset@;
    let mut i: usize = 0;
    assert(out@ =~= old(out)@ + changeset_text(layout@, files.take(0)));
    while i < changeset.files.len()
        invariant
            i <= changeset.files.len(),
            files == changeset@,
            out@ == old(out)@ + changeset_text(layout@, files.take(i as int)),
        decreases changeset.files.len() - i,
    {
        assert(files.take(i + 1).drop_last() =~= files.take(i as int));
        assert(files.take(i + 1).last() == changeset.files[i as int]@);
        append_delta(out, layout, &changeset.files[i]);
        assert(out@ =~= old(out)@ + changeset_text(layout@, files.take(i + 1)));
        i += 1;
    }
    assert(files.take(i as int) =~= files);
}

impl Digest {
    /// Whether there is nothing to summarize.
    pub fn is_empty(&self) -> (r: bool)
        ensures
            r == (self@.len() == 0),
    {
        self.text.as_str().is_empty()
    }

    /// The digest's text.
    pub fn as_str(&self) -> (text: &str)
        ensures
            text@ == self@,
    {
        self.text.as_str()
    }
}

/// Writes one changeset down in the given layout.
pub fn render(changeset: &Changeset, layout: &Layout) -> (digest: Digest)
    ensures
        digest@ == changeset_text(layout@, changeset@),
        changeset@.len() == 0 ==> digest@.len() == 0,
{
    let mut text = String::new();
    append_changeset(&mut text, layout, changeset);
    assert(text@ =~= changeset_text(layout@, changeset@));
    Digest { text }
}

/// Assembles tagged changesets into one digest, in input order.
pub fn build(parts: &Vec<TaggedChangeset>) -> (digest: Digest)
    ensures
        digest@ == combined_text(parts@.map_values(|part: TaggedChangeset| part@)),
        (forall|i: int| 0 <= i < parts.len() ==> (#[trigger] parts[i]).changeset@.len() == 0)
            ==> digest@.len() == 0,
{
    let ghost model = parts@.map_values(|part: TaggedChangeset| part@);
    let mut text = String::new();
    let mut i: usize = 0;
    assert(text@ =~= combined_text(model.take(0)));
    while i < parts.len()
        invariant
            i <= parts.len(),
            model == parts@.map_values(|part: TaggedChangeset| part@),
            text@ == combined_text(model.take(i as int)),
        decreases parts.len() - i,
    {
        assert(model.take(i + 1).drop_last() =~= model.take(i as int));
        assert(model.take(i + 1).last() == parts[i as int]@);
        let layout = Layout::Tagged(String::from_str(parts[i].tag));
        append_changeset(&mut text, &layout, parts[i].changeset);
        i += 1;
    }
    assert(model.take(i as int) =~= model);
    proof {
        if forall|i: int| 0 <= i < parts.len() ==> (#[trigger] parts[i]).changeset@.len() == 0 {
            assert forall|i: int| 0 <= i < model.len() implies (#[trigger] model[i]).files.len()
                == 0 by {
                assert(model[i] == parts[i]@);
            }
            lemma_no_deltas_no_digest(model);
        }
    }
    Digest { text }
}

} // verus!
