use vstd::prelude::*;
use crate::text::{chars_of, string_of, strings_view};

verus! {

const DEFAULT_CONTEXT_LINES: usize = 3;
const DEFAULT_SYNC_MAX_BYTES: usize = 2 * 1024 * 1024;
const DEFAULT_SYNC_MAX_LINES: usize = 100_000;
const DEFAULT_MAX_HUNKS: usize = 10_000;

/// Limits under which a line diff is computed synchronously.
#[derive(Debug, Clone, Copy, PartialEq, Eq, Structural)]
pub struct DiffPolicy {
    context_lines: usize,
    sync_max_bytes: usize,
    sync_max_lines: usize,
    max_hunks: usize,
}

/// The four limits of a [`DiffPolicy`], in field order.
pub struct DiffPolicyView {
    pub context_lines: usize,
    pub sync_max_bytes: usize,
    pub sync_max_lines: usize,
    pub max_hunks: usize,
}

impl View for DiffPolicy {
    type V = DiffPolicyView;

    closed spec fn view(&self) -> DiffPolicyView {
        DiffPolicyView {
            context_lines: self.context_lines,
            sync_max_bytes: self.sync_max_bytes,
            sync_max_lines: self.sync_max_lines,
            max_hunks: self.max_hunks,
        }
    }
}

/// The error that `DiffPolicy::new` reports for the given limits, if any,
/// checked in this order.
pub open spec fn diff_policy_error(
    context_lines: usize,
    sync_max_bytes: usize,
    sync_max_lines: usize,
    max_hunks: usize,
) -> Option<DiffPolicyError> {
    if sync_max_bytes == 0 {
        Some(DiffPolicyError::ZeroByteLimit)
    } else if sync_max_lines == 0 {
        Some(DiffPolicyError::ZeroLineLimit)
    } else if max_hunks == 0 {
        Some(DiffPolicyError::ZeroHunkLimit)
    } else if context_lines > sync_max_lines {
        Some(DiffPolicyError::ContextExceedsLineLimit)
    } else {
        None
    }
}

impl DiffPolicy {
    pub fn new(
        context_lines: usize,
        sync_max_bytes: usize,
        sync_max_lines: usize,
        max_hunks: usize,
    ) -> (result: Result<Self, DiffPolicyError>)
        ensures
            match diff_policy_error(context_lines, sync_max_bytes, sync_max_lines, max_hunks) {
                Some(error) => result == Err::<Self, DiffPolicyError>(error),
                None => result is Ok && result->Ok_0@ == (DiffPolicyView {
                    context_lines,
                    sync_max_bytes,
                    sync_max_lines,
                    max_hunks,
                }),
            },
    {
        if sync_max_bytes == 0 {
            return Err(DiffPolicyError::ZeroByteLimit);
        }
        if sync_max_lines == 0 {
            return Err(DiffPolicyError::ZeroLineLimit);
        }
        if max_hunks == 0 {
            return Err(DiffPolicyError::ZeroHunkLimit);
        }
        if context_lines > sync_max_lines {
            return Err(DiffPolicyError::ContextExceedsLineLimit);
        }
        Ok(Self { context_lines, sync_max_bytes, sync_max_lines, max_hunks })
    }

    pub fn context_lines(self) -> (result: usize)
        ensures
            result == self@.context_lines,
    {
        self.context_lines
    }

    pub fn sync_max_bytes(self) -> (result: usize)
        ensures
            result == self@.sync_max_bytes,
    {
        self.sync_max_bytes
    }

    pub fn sync_max_lines(self) -> (result: usize)
        ensures
            result == self@.sync_max_lines,
    {
        self.sync_max_lines
    }

    pub fn max_hunks(self) -> (result: usize)
        ensures
            result == self@.max_hunks,
    {
        self.max_hunks
    }
}

impl Default for DiffPolicy {
    fn default() -> (result: Self)
        ensures
            result@ == (DiffPolicyView {
                context_lines: 3,
                sync_max_bytes: 2097152,
                sync_max_lines: 100_000,
                max_hunks: 10_000,
            }),
    {
        Self {
            context_lines: DEFAULT_CONTEXT_LINES,
            sync_max_bytes: DEFAULT_SYNC_MAX_BYTES,
            sync_max_lines: DEFAULT_SYNC_MAX_LINES,
            max_hunks: DEFAULT_MAX_HUNKS,
        }
    }
}

#[derive(Debug, Clone, Copy, PartialEq, Eq, Structural)]
pub enum DiffPolicyError {
    ZeroByteLimit,
    ZeroLineLimit,
    ZeroHunkLimit,
    ContextExceedsLineLimit,
}

impl DiffPolicyError {
    pub fn code(self) -> (result: &'static str)
        ensures
            result@ == "document.diff_policy_invalid"@,
    {
        "document.diff_policy_invalid"
    }
}


#[derive(Debug, Clone, Copy, PartialEq, Eq, Structural)]
pub enum DiffLimitReason {
    Bytes,
    Lines,
    Hunks,
}

#[derive(Debug, Clone, PartialEq, Eq)]
pub enum DiffComputation {
    Complete(DocumentDiffResult),
    TooLarge(DiffLimitReason),
}

#[derive(Debug, Clone, PartialEq, Eq)]
pub enum DocumentTitleDelta {
    Unchanged,
    Changed { before: String, after: String },
}

/// A title delta with its texts as character sequences.
pub enum DocumentTitleDeltaView {
    Unchanged,
    Changed { before: Seq<char>, after: Seq<char> },
}

impl View for DocumentTitleDelta {
    type V = DocumentTitleDeltaView;

    open spec fn view(&self) -> DocumentTitleDeltaView {
        match self {
            DocumentTitleDelta::Unchanged => DocumentTitleDeltaView::Unchanged,
            DocumentTitleDelta::Changed { before, after } => DocumentTitleDeltaView::Changed {
                before: before@,
                after: after@,
            },
        }
    }
}

/// The delta between two document titles: unchanged when they are equal,
/// otherwise both texts.
pub open spec fn title_delta_spec(before: Seq<char>, after: Seq<char>) -> DocumentTitleDeltaView {
    if before == after {
        DocumentTitleDeltaView::Unchanged
    } else {
        DocumentTitleDeltaView::Changed { before, after }
    }
}

/// Compares the titles of the two sides of a diff.
pub fn title_delta_from_titles(before: &str, after: &str) -> (result: DocumentTitleDelta)
    ensures
        result@ == title_delta_spec(before@, after@),
{
    let before = before.to_owned();
    let after = after.to_owned();
    if before == after {
        DocumentTitleDelta::Unchanged
    } else {
        DocumentTitleDelta::Changed { before, after }
    }
}

impl DiffComputation {
    pub fn complete(&self) -> (result: Option<&DocumentDiffResult>)
        ensures
            match self {
                DiffComputation::Complete(r) => result == Some(r),
                DiffComputation::TooLarge(_) => result is None,
            },
    {
        match self {
            DiffComputation::Complete(result) => Some(result),
            DiffComputation::TooLarge(_) => None,
        }
    }
}

#[derive(Debug, Clone, Copy, PartialEq, Eq, Structural)]
pub enum LineDiffKind {
    Equal,
    Added,
    Removed,
}

#[derive(Debug, PartialEq, Eq)]
pub struct LineDiff {
    kind: LineDiffKind,
    text: String,
    old_line_number: Option<usize>,
    new_line_number: Option<usize>,
}

/// One line of a diff: its kind, its text and its line numbers on each side.
pub struct LineDiffView {
    pub kind: LineDiffKind,
    pub text: Seq<char>,
    pub old_line_number: Option<usize>,
    pub new_line_number: Option<usize>,
}

impl View for LineDiff {
    type V = LineDiffView;

    closed spec fn view(&self) -> LineDiffView {
        LineDiffView {
            kind: self.kind,
            text: self.text@,
            old_line_number: self.old_line_number,
            new_line_number: self.new_line_number,
        }
    }
}

impl Clone for LineDiff {
    fn clone(&self) -> (result: Self)
        ensures
            result@ == self@,
    {
        LineDiff {
            kind: self.kind,
            text: self.text.clone(),
            old_line_number: self.old_line_number,
            new_line_number: self.new_line_number,
        }
    }
}

pub open spec fn lines_view(lines: Seq<LineDiff>) -> Seq<LineDiffView> {
    lines.map_values(|line: LineDiff| line@)
}

impl LineDiff {
    pub fn kind(&self) -> (result: LineDiffKind)
        ensures
            result == self@.kind,
    {
        self.kind
    }

    pub fn text(&self) -> (result: &str)
        ensures
            result@ == self@.text,
    {
        self.text.as_str()
    }

    pub fn old_line_number(&self) -> (result: Option<usize>)
        ensures
            result == self@.old_line_number,
    {
        self.old_line_number
    }

    pub fn new_line_number(&self) -> (result: Option<usize>)
        ensures
            result == self@.new_line_number,
    {
        self.new_line_number
    }
}

#[derive(Debug, Clone, PartialEq, Eq)]
pub struct DiffHunk {
    old_start_line: usize,
    new_start_line: usize,
    lines: Vec<LineDiff>,
    added_count: usize,
    removed_count: usize,
}

/// A hunk: where it starts on each side, its lines and how many were added
/// and removed in it.
pub struct DiffHunkView {
    pub old_start_line: usize,
    pub new_start_line: usize,
    pub lines: Seq<LineDiffView>,
    pub added_count: usize,
    pub removed_count: usize,
}

impl View for DiffHunk {
    type V = DiffHunkView;

    closed spec fn view(&self) -> DiffHunkView {
        DiffHunkView {
            old_start_line: self.old_start_line,
            new_start_line: self.new_start_line,
            lines: lines_view(self.lines@),
            added_count: self.added_count,
            removed_count: self.removed_count,
        }
    }
}

pub open spec fn hunks_view(hunks: Seq<DiffHunk>) -> Seq<DiffHunkView> {
    hunks.map_values(|hunk: DiffHunk| hunk@)
}

impl DiffHunk {
    pub fn old_start_line(&self) -> (result: usize)
        ensures
            result == self@.old_start_line,
    {
        self.old_start_line
    }

    pub fn new_start_line(&self) -> (result: usize)
        ensures
            result == self@.new_start_line,
    {
        self.new_start_line
    }

    pub fn lines(&self) -> (result: &[LineDiff])
        ensures
            lines_view(result@) == self@.lines,
    {
        self.lines.as_slice()
    }

    pub fn added_count(&self) -> (result: usize)
        ensures
            result == self@.added_count,
    {
        self.added_count
    }

    pub fn removed_count(&self) -> (result: usize)
        ensures
            result == self@.removed_count,
    {
        self.removed_count
    }
}

#[derive(Debug, Clone, PartialEq, Eq)]
pub struct DocumentDiffResult {
    lines: Vec<LineDiff>,
    hunks: Vec<DiffHunk>,
    added_count: usize,
    removed_count: usize,
    old_ends_with_newline: bool,
    new_ends_with_newline: bool,
    title_delta: DocumentTitleDelta,
}

/// A complete diff: its lines, its hunks, the counts of added and removed
/// lines, whether each side ends with a newline, and the title delta.
pub struct DocumentDiffResultView {
    pub lines: Seq<LineDiffView>,
    pub hunks: Seq<DiffHunkView>,
    pub added_count: usize,
    pub removed_count: usize,
    pub old_ends_with_newline: bool,
    pub new_ends_with_newline: bool,
    pub title_delta: DocumentTitleDeltaView,
}

impl View for DocumentDiffResult {
    type V = DocumentDiffResultView;

    closed spec fn view(&self) -> DocumentDiffResultView {
        DocumentDiffResultView {
            lines: lines_view(self.lines@),
            hunks: hunks_view(self.hunks@),
            added_count: self.added_count,
            removed_count: self.removed_count,
            old_ends_with_newline: self.old_ends_with_newline,
            new_ends_with_newline: self.new_ends_with_newline,
            title_delta: self.title_delta@,
        }
    }
}

impl DocumentDiffResult {
    pub fn lines(&self) -> (result: &[LineDiff])
        ensures
            lines_view(result@) == self@.lines,
    {
        self.lines.as_slice()
    }

    pub fn hunks(&self) -> (result: &[DiffHunk])
        ensures
            hunks_view(result@) == self@.hunks,
    {
        self.hunks.as_slice()
    }

    pub fn added_count(&self) -> (result: usize)
        ensures
            result == self@.added_count,
    {
        self.added_count
    }

    pub fn removed_count(&self) -> (result: usize)
        ensures
            result == self@.removed_count,
    {
        self.removed_count
    }

    pub fn old_ends_with_newline(&self) -> (result: bool)
        ensures
            result == self@.old_ends_with_newline,
    {
        self.old_ends_with_newline
    }

    pub fn new_ends_with_newline(&self) -> (result: bool)
        ensures
            result == self@.new_ends_with_newline,
    {
        self.new_ends_with_newline
    }

    pub fn title_delta(&self) -> (result: &DocumentTitleDelta)
        ensures
            result@ == self@.title_delta,
    {
        &self.title_delta
    }
}


// ---------------------------------------------------------------------------
// Line endings and physical lines
// ---------------------------------------------------------------------------

/// The text with each CR LF pair, and then each remaining CR, replaced by LF.
pub open spec fn normalized_line_endings(s: Seq<char>) -> Seq<char>
    decreases s.len(),
{
    if s.len() == 0 {
        s
    } else if s.last() == '\n' && s.len() >= 2 && s[s.len() - 2] == '\r' {
        normalized_line_endings(s.subrange(0, s.len() - 2)).push('\n')
    } else if s.last() == '\r' {
        normalized_line_endings(s.drop_last()).push('\n')
    } else {
        normalized_line_endings(s.drop_last()).push(s.last())
    }
}

/// The pieces of a text between its LF characters: one more piece than the
/// text has LF characters.
pub open spec fn newline_pieces(s: Seq<char>) -> Seq<Seq<char>>
    decreases s.len(),
{
    if s.len() == 0 {
        seq![Seq::<char>::empty()]
    } else {
        let p = newline_pieces(s.drop_last());
        if s.last() == '\n' {
            p.push(Seq::<char>::empty())
        } else {
            p.update(p.len() - 1, p.last().push(s.last()))
        }
    }
}

/// The lines of a text: its pieces between LF characters, without the empty
/// piece that follows a final LF. An empty text has no lines.
pub open spec fn physical_lines(s: Seq<char>) -> Seq<Seq<char>> {
    if s.len() == 0 {
        Seq::empty()
    } else if s.last() == '\n' {
        newline_pieces(s).drop_last()
    } else {
        newline_pieces(s)
    }
}

/// Pieces joined back together with an LF between neighbours.
pub open spec fn join_with_newlines(p: Seq<Seq<char>>) -> Seq<char>
    decreases p.len(),
{
    if p.len() == 0 {
        Seq::empty()
    } else if p.len() == 1 {
        p[0]
    } else {
        join_with_newlines(p.drop_last()) + seq!['\n'] + p.last()
    }
}

pub open spec fn ends_with_newline(s: Seq<char>) -> bool {
    s.len() > 0 && s.last() == '\n'
}

pub proof fn lemma_newline_pieces_shape(s: Seq<char>)
    ensures
        newline_pieces(s).len() >= 1,
        join_with_newlines(newline_pieces(s)) == s,
        forall|i: int, j: int|
            0 <= i < newline_pieces(s).len() && 0 <= j < newline_pieces(s)[i].len()
                ==> newline_pieces(s)[i][j] != '\n',
    decreases s.len(),
{
    if s.len() > 0 {
        let t = s.drop_last();
        lemma_newline_pieces_shape(t);
        let p = newline_pieces(t);
        if s.last() == '\n' {
            let q = p.push(Seq::<char>::empty());
            assert(q.drop_last() =~= p);
            assert(join_with_newlines(q) =~= t + seq!['\n'] + Seq::<char>::empty());
            assert(t + seq!['\n'] =~= s);
        } else {
            let q = p.update(p.len() - 1, p.last().push(s.last()));
            if p.len() == 1 {
                assert(q[0] =~= t.push(s.last()));
            } else {
                assert(q.drop_last() =~= p.drop_last());
                assert(join_with_newlines(p) == join_with_newlines(p.drop_last()) + seq!['\n'] + p.last());
                assert(join_with_newlines(q) =~= join_with_newlines(p).push(s.last()));
            }
            assert(t.push(s.last()) =~= s);
            assert forall|i: int, j: int| 0 <= i < q.len() && 0 <= j < q[i].len() implies q[i][j] != '\n' by {
                if i == p.len() - 1 {
                    if j < p.last().len() {
                        assert(q[i][j] == p[i][j]);
                    }
                }
            }
        }
    }
}

/// The lines of a non-empty text joined with LF, followed by LF when the text
/// ends with one, give the text back; no line holds an LF.
pub proof fn lemma_physical_lines_restore_text(s: Seq<char>)
    requires
        s.len() > 0,
    ensures
        s == if ends_with_newline(s) {
            join_with_newlines(physical_lines(s)) + seq!['\n']
        } else {
            join_with_newlines(physical_lines(s))
        },
        forall|i: int, j: int|
            0 <= i < physical_lines(s).len() && 0 <= j < physical_lines(s)[i].len()
                ==> physical_lines(s)[i][j] != '\n',
{
    lemma_newline_pieces_shape(s);
    if ends_with_newline(s) {
        let t = s.drop_last();
        lemma_newline_pieces_shape(t);
        let p = newline_pieces(t);
        assert(newline_pieces(s).drop_last() =~= p);
        assert(t + seq!['\n'] =~= s);
    }
}

fn normalize_line_endings(value: &Vec<char>) -> (result: Vec<char>)
    ensures
        result@ == normalized_line_endings(value@),
{
    let n = value.len();
    let mut out: Vec<char> = Vec::new();
    let mut i: usize = 0;
    assert(value@.take(0) =~= Seq::<char>::empty());
    while i < n
        invariant
            i <= n,
            n == value@.len(),
            out@ == normalized_line_endings(value@.take(i as int)),
            i > 0 && value@[i - 1] == '\r' && i < n ==> value@[i as int] != '\n',
        decreases n - i,
    {
        let c = value[i];
        if c == '\r' && i + 1 < n && value[i + 1] == '\n' {
            let ghost next = value@.take(i + 2);
            assert(next.subrange(0, next.len() - 2) =~= value@.take(i as int));
            out.push('\n');
            i = i + 2;
        } else if c == '\r' {
            let ghost next = value@.take(i + 1);
            assert(next.drop_last() =~= value@.take(i as int));
            out.push('\n');
            i = i + 1;
        } else {
            let ghost next = value@.take(i + 1);
            assert(next.drop_last() =~= value@.take(i as int));
            out.push(c);
            i = i + 1;
        }
    }
    assert(value@.take(n as int) =~= value@);
    out
}

fn physical_lines_of(value: &Vec<char>) -> (lines: Vec<String>)
    ensures
        strings_view(lines@) == physical_lines(value@),
{
    let n = value.len();
    let mut lines: Vec<String> = Vec::new();
    let mut current: Vec<char> = Vec::new();
    let mut i: usize = 0;
    assert(value@.take(0) =~= Seq::<char>::empty());
    assert(strings_view(lines@).push(current@) =~= newline_pieces(value@.take(0)));
    while i < n
        invariant
            i <= n,
            n == value@.len(),
            strings_view(lines@).push(current@) == newline_pieces(value@.take(i as int)),
        decreases n - i,
    {
        let ghost before = newline_pieces(value@.take(i as int));
        let ghost next = value@.take(i + 1);
        assert(next.drop_last() =~= value@.take(i as int));
        proof {
            lemma_newline_pieces_shape(value@.take(i as int));
        }
        let c = value[i];
        if c == '\n' {
            let piece = string_of(current.as_slice());
            let ghost old_lines = strings_view(lines@);
            lines.push(piece);
            current = Vec::new();
            assert(strings_view(lines@) =~= old_lines.push(piece@));
            assert(strings_view(lines@).push(current@) =~= before.push(Seq::<char>::empty()));
        } else {
            let ghost old_lines = strings_view(lines@);
            current.push(c);
            assert(strings_view(lines@).push(current@) =~= before.update(
                before.len() - 1,
                before.last().push(c),
            ));
        }
        i = i + 1;
    }
    assert(value@.take(n as int) =~= value@);
    if n == 0 {
        return Vec::new();
    }
    if value[n - 1] == '\n' {
        assert(strings_view(lines@) =~= strings_view(lines@).push(current@).drop_last());
        lines
    } else {
        let piece = string_of(current.as_slice());
        let ghost old_lines = strings_view(lines@);
        lines.push(piece);
        assert(strings_view(lines@) =~= old_lines.push(piece@));
        lines
    }
}


// ---------------------------------------------------------------------------
// Line changes and their numbering
// ---------------------------------------------------------------------------

/// A sequence of line changes: each line's kind and text.
pub open spec fn changes_view(changes: Seq<(LineDiffKind, String)>) -> Seq<(LineDiffKind, Seq<char>)> {
    changes.map_values(|change: (LineDiffKind, String)| (change.0, change.1@))
}

/// The lines of the old side that a change sequence passes over: every line
/// that was not added.
pub open spec fn old_side(changes: Seq<(LineDiffKind, Seq<char>)>) -> Seq<Seq<char>>
    decreases changes.len(),
{
    if changes.len() == 0 {
        Seq::empty()
    } else if changes.last().0 == LineDiffKind::Added {
        old_side(changes.drop_last())
    } else {
        old_side(changes.drop_last()).push(changes.last().1)
    }
}

/// The lines of the new side that a change sequence passes over: every line
/// that was not removed.
pub open spec fn new_side(changes: Seq<(LineDiffKind, Seq<char>)>) -> Seq<Seq<char>>
    decreases changes.len(),
{
    if changes.len() == 0 {
        Seq::empty()
    } else if changes.last().0 == LineDiffKind::Removed {
        new_side(changes.drop_last())
    } else {
        new_side(changes.drop_last()).push(changes.last().1)
    }
}

/// The line changes that turn the old lines into the new ones, as the Myers
/// algorithm of `similar` computes them.
pub uninterp spec fn myers_line_changes(old: Seq<Seq<char>>, new: Seq<Seq<char>>) -> Seq<(LineDiffKind, Seq<char>)>;

/// Calls `similar::capture_diff_slices` with the Myers algorithm on the two
/// line lists and expands each operation with `DiffOp::iter_changes`, so that
/// each change becomes its kind (Equal, Delete as Removed, Insert as Added)
/// and its line. Claimed of it: the result is a function of the two lists,
/// and, as the algorithm reports equal, deleted and inserted runs in order
/// over both lists, the non-added lines in order are the old list and the
/// non-removed lines in order are the new list.
#[verifier::external_body]
fn myers_diff_lines(old: &Vec<String>, new: &Vec<String>) -> (changes: Vec<(LineDiffKind, String)>)
    ensures
        changes_view(changes@) == myers_line_changes(strings_view(old@), strings_view(new@)),
        old_side(changes_view(changes@)) == strings_view(old@),
        new_side(changes_view(changes@)) == strings_view(new@),
{
    let ops = similar::capture_diff_slices(similar::Algorithm::Myers, old, new);
    ops.iter().flat_map(|op| op.iter_changes(old, new)).map(|change| {
        let kind = match change.tag() {
            similar::ChangeTag::Equal => LineDiffKind::Equal,
            similar::ChangeTag::Delete => LineDiffKind::Removed,
            similar::ChangeTag::Insert => LineDiffKind::Added,
        };
        (kind, change.value())
    }).collect()
}

pub proof fn lemma_sides_bounded(changes: Seq<(LineDiffKind, Seq<char>)>)
    ensures
        old_side(changes).len() <= changes.len(),
        new_side(changes).len() <= changes.len(),
    decreases changes.len(),
{
    if changes.len() > 0 {
        lemma_sides_bounded(changes.drop_last());
    }
}

/// The diff line for change `i`: its kind and text, and on each side it
/// appears on, its 1-based line number there, which is one more than the
/// number of earlier changes on that side.
pub open spec fn numbered_line(changes: Seq<(LineDiffKind, Seq<char>)>, i: int) -> LineDiffView {
    LineDiffView {
        kind: changes[i].0,
        text: changes[i].1,
        old_line_number: if changes[i].0 == LineDiffKind::Added {
            None
        } else {
            Some((old_side(changes.take(i)).len() + 1) as usize)
        },
        new_line_number: if changes[i].0 == LineDiffKind::Removed {
            None
        } else {
            Some((new_side(changes.take(i)).len() + 1) as usize)
        },
    }
}

pub open spec fn numbered_lines(changes: Seq<(LineDiffKind, Seq<char>)>) -> Seq<LineDiffView> {
    Seq::new(changes.len(), |i: int| numbered_line(changes, i))
}

/// The line number of a diff line on the old or the new side.
pub open spec fn side_number(line: LineDiffView, old: bool) -> Option<usize> {
    if old {
        line.old_line_number
    } else {
        line.new_line_number
    }
}

/// Every line number is at most one more than the line's position.
pub open spec fn numbers_bounded(lines: Seq<LineDiffView>) -> bool {
    forall|m: int, old: bool|
        0 <= m < lines.len() && (#[trigger] side_number(lines[m], old)) is Some
            ==> side_number(lines[m], old)->0 <= m + 1
}

fn number_lines(changes: &Vec<(LineDiffKind, String)>) -> (lines: Vec<LineDiff>)
    ensures
        lines_view(lines@) == numbered_lines(changes_view(changes@)),
        numbers_bounded(lines_view(lines@)),
{
    let ghost ch = changes_view(changes@);
    let n = changes.len();
    let mut old_count: usize = 0;
    let mut new_count: usize = 0;
    let mut lines: Vec<LineDiff> = Vec::new();
    let mut i: usize = 0;
    assert(ch.take(0) =~= Seq::<(LineDiffKind, Seq<char>)>::empty());
    while i < n
        invariant
            n == changes@.len(),
            ch == changes_view(changes@),
            i <= n,
            old_count == old_side(ch.take(i as int)).len(),
            new_count == new_side(ch.take(i as int)).len(),
            old_count <= i,
            new_count <= i,
            lines@.len() == i,
            forall|j: int| 0 <= j < i ==> #[trigger] lines@[j]@ == numbered_line(ch, j),
        decreases n - i,
    {
        let kind = changes[i].0;
        let text = changes[i].1.clone();
        let old_number = if kind == LineDiffKind::Added {
            None
        } else {
            Some(old_count + 1)
        };
        let new_number = if kind == LineDiffKind::Removed {
            None
        } else {
            Some(new_count + 1)
        };
        let line = LineDiff { kind, text, old_line_number: old_number, new_line_number: new_number };
        assert(line@ == numbered_line(ch, i as int));
        lines.push(line);
        assert(ch.take(i + 1).drop_last() =~= ch.take(i as int));
        if kind != LineDiffKind::Added {
            old_count = old_count + 1;
        }
        if kind != LineDiffKind::Removed {
            new_count = new_count + 1;
        }
        i = i + 1;
    }
    assert(lines_view(lines@) =~= numbered_lines(ch));
    assert forall|m: int, old: bool|
        0 <= m < lines_view(lines@).len() && (#[trigger] side_number(lines_view(lines@)[m], old)) is Some
            implies side_number(lines_view(lines@)[m], old)->0 <= m + 1 by {
        lemma_sides_bounded(ch.take(m));
    }
    lines
}

/// How many of the lines have the given kind.
pub open spec fn count_of_kind(lines: Seq<LineDiffView>, kind: LineDiffKind) -> nat
    decreases lines.len(),
{
    if lines.len() == 0 {
        0
    } else {
        count_of_kind(lines.drop_last(), kind) + if lines.last().kind == kind {
            1nat
        } else {
            0nat
        }
    }
}

pub proof fn lemma_count_of_kind_bounded(lines: Seq<LineDiffView>, kind: LineDiffKind)
    ensures
        count_of_kind(lines, kind) <= lines.len(),
    decreases lines.len(),
{
    if lines.len() > 0 {
        lemma_count_of_kind_bounded(lines.drop_last(), kind);
    }
}

fn count_kind(lines: &[LineDiff], kind: LineDiffKind) -> (count: usize)
    ensures
        count == count_of_kind(lines_view(lines@), kind),
{
    let ghost lv = lines_view(lines@);
    let n = lines.len();
    let mut count: usize = 0;
    let mut i: usize = 0;
    assert(lv.take(0) =~= Seq::<LineDiffView>::empty());
    while i < n
        invariant
            n == lines@.len(),
            lv == lines_view(lines@),
            i <= n,
            count == count_of_kind(lv.take(i as int), kind),
            count <= i,
        decreases n - i,
    {
        assert(lv.take(i + 1).drop_last() =~= lv.take(i as int));
        if lines[i].kind == kind {
            count = count + 1;
        }
        i = i + 1;
    }
    assert(lv.take(n as int) =~= lv);
    count
}


// ---------------------------------------------------------------------------
// Hunks
// ---------------------------------------------------------------------------

/// Line `c` is an added or removed line.
pub open spec fn is_change(lines: Seq<LineDiffView>, c: int) -> bool {
    0 <= c < lines.len() && lines[c].kind != LineDiffKind::Equal
}

/// Line `i` lies within `context` lines of the changed line `c`.
pub open spec fn covers(lines: Seq<LineDiffView>, context: int, c: int, i: int) -> bool {
    is_change(lines, c) && c - context <= i && i <= c + context
}

/// Line `i` lies within `context` lines of some changed line before `limit`.
pub open spec fn covered_before(lines: Seq<LineDiffView>, context: int, limit: int, i: int) -> bool {
    0 <= i < lines.len() && exists|c: int| #[trigger] covers(lines, context, c, i) && c < limit
}

pub open spec fn in_range(range: (usize, usize), i: int) -> bool {
    range.0 <= i < range.1
}

/// The ranges are the maximal runs of consecutive lines that lie within
/// `context` lines of a changed line before `limit`, in order.
pub open spec fn runs_of_context(
    lines: Seq<LineDiffView>,
    context: int,
    limit: int,
    ranges: Seq<(usize, usize)>,
) -> bool {
    &&& forall|j: int| 0 <= j < ranges.len() ==> #[trigger] ranges[j].0 < ranges[j].1 <= lines.len()
    &&& forall|j1: int, j2: int|
        0 <= j1 < j2 < ranges.len() ==> #[trigger] ranges[j1].1 < #[trigger] ranges[j2].0
    &&& forall|j: int, i: int|
        0 <= j < ranges.len() && #[trigger] in_range(ranges[j], i) ==> covered_before(lines, context, limit, i)
    &&& forall|i: int|
        #[trigger] covered_before(lines, context, limit, i) ==> exists|j: int| 0 <= j < ranges.len() && #[trigger] in_range(ranges[j], i)
}

/// The hunk ranges of a diff: the maximal runs of lines within `context`
/// lines of an added or removed line.
pub open spec fn hunk_ranges(lines: Seq<LineDiffView>, context: int, ranges: Seq<(usize, usize)>) -> bool {
    runs_of_context(lines, context, lines.len() as int, ranges)
}

/// The line number that follows the last line before position `j` that has
/// a number on the given side, or 1 when there is none.
pub open spec fn number_after(lines: Seq<LineDiffView>, j: int, old: bool) -> int
    decreases j,
{
    if j <= 0 {
        1
    } else {
        match side_number(lines[j - 1], old) {
            Some(n) => n + 1,
            None => number_after(lines, j - 1, old),
        }
    }
}

/// Where a hunk that begins at `start` begins on the given side: the line's
/// own number there, or else the number that follows the last numbered line
/// before it.
pub open spec fn hunk_start_number(lines: Seq<LineDiffView>, start: int, old: bool) -> int {
    match side_number(lines[start], old) {
        Some(n) => n as int,
        None => number_after(lines, start, old),
    }
}

/// The hunk of the diff lines that covers the given range.
pub open spec fn hunk_view(lines: Seq<LineDiffView>, range: (usize, usize)) -> DiffHunkView {
    let hunk_lines = lines.subrange(range.0 as int, range.1 as int);
    DiffHunkView {
        old_start_line: hunk_start_number(lines, range.0 as int, true) as usize,
        new_start_line: hunk_start_number(lines, range.0 as int, false) as usize,
        lines: hunk_lines,
        added_count: count_of_kind(hunk_lines, LineDiffKind::Added) as usize,
        removed_count: count_of_kind(hunk_lines, LineDiffKind::Removed) as usize,
    }
}

fn line_side_number(line: &LineDiff, old: bool) -> (result: Option<usize>)
    ensures
        result == side_number(line@, old),
{
    if old {
        line.old_line_number
    } else {
        line.new_line_number
    }
}

fn hunk_start_line(lines: &Vec<LineDiff>, start: usize, old: bool) -> (result: usize)
    requires
        start < lines@.len(),
        numbers_bounded(lines_view(lines@)),
    ensures
        result == hunk_start_number(lines_view(lines@), start as int, old),
{
    let ghost lv = lines_view(lines@);
    assert(lv[start as int] == lines@[start as int]@);
    match line_side_number(&lines[start], old) {
        Some(number) => number,
        None => {
            let mut j = start;
            while j > 0
                invariant
                    j <= start < lines.len(),
                    lv == lines_view(lines@),
                    side_number(lv[start as int], old) is None,
                    numbers_bounded(lv),
                    number_after(lv, start as int, old) == number_after(lv, j as int, old),
                decreases j,
            {
                match line_side_number(&lines[j - 1], old) {
                    Some(number) => {
                        assert(lv[j - 1] == lines@[j - 1]@);
                        assert(side_number(lv[j - 1], old) == Some(number));
                        assert(number <= j);
                        assert(number_after(lv, j as int, old) == number + 1);
                        return number + 1;
                    },
                    None => {
                        assert(lv[j - 1] == lines@[j - 1]@);
                        j = j - 1;
                    },
                }
            }
            1
        },
    }
}

fn hunk_ranges_of(lines: &Vec<LineDiff>, context_lines: usize) -> (ranges: Vec<(usize, usize)>)
    ensures
        hunk_ranges(lines_view(lines@), context_lines as int, ranges@),
{
    let ghost lv = lines_view(lines@);
    let ghost k = context_lines as int;
    let n = lines.len();
    let mut ranges: Vec<(usize, usize)> = Vec::new();
    let mut current: Option<(usize, usize)> = None;
    let mut p: usize = 0;
    while p < n
        invariant
            n == lines@.len(),
            lv == lines_view(lines@),
            k == context_lines,
            p <= n,
            runs_of_context(
                lv,
                k,
                p as int,
                match current {
                    Some(r) => ranges@.push(r),
                    None => ranges@,
                },
            ),
            current is None ==> ranges@.len() == 0,
            current matches Some(r) ==> r.0 <= (if p >= k { p - k } else { 0 }),
        decreases n - p,
    {
        let ghost before = match current {
            Some(r) => ranges@.push(r),
            None => ranges@,
        };
        if lines[p].kind != LineDiffKind::Equal {
            assert(is_change(lv, p as int));
            let candidate_start = p.saturating_sub(context_lines);
            let reach = p.saturating_add(context_lines).saturating_add(1);
            let candidate_end = if reach < n { reach } else { n };
            let candidate = (candidate_start, candidate_end);
            match current {
                None => {
                    current = Some(candidate);
                    let ghost after = ranges@.push(candidate);
                    assert forall|i: int| #[trigger] covered_before(lv, k, p + 1, i) implies
                        exists|j: int| 0 <= j < after.len() && #[trigger] in_range(after[j], i) by {
                        let c = choose|c: int| #[trigger] covers(lv, k, c, i) && c < p + 1;
                        if c < p {
                            assert(covered_before(lv, k, p as int, i));
                        }
                        assert(in_range(after[0], i));
                    }
                    assert forall|j: int, i: int| 0 <= j < after.len() && #[trigger] in_range(after[j], i)
                        implies covered_before(lv, k, p + 1, i) by {
                        assert(covers(lv, k, p as int, i));
                    }
                },
                Some(r) => {
                    if candidate_start <= r.1 {
                        let end = if candidate_end > r.1 { candidate_end } else { r.1 };
                        let merged = (r.0, end);
                        current = Some(merged);
                        let ghost after = ranges@.push(merged);
                        assert forall|i: int| #[trigger] covered_before(lv, k, p + 1, i) implies
                            exists|j: int| 0 <= j < after.len() && #[trigger] in_range(after[j], i) by {
                            let c = choose|c: int| #[trigger] covers(lv, k, c, i) && c < p + 1;
                            if c < p {
                                assert(covered_before(lv, k, p as int, i));
                                let j = choose|j: int| 0 <= j < before.len() && #[trigger] in_range(before[j], i);
                                if j == ranges@.len() {
                                    assert(in_range(after[j], i));
                                } else {
                                    assert(after[j] == before[j]);
                                }
                            } else {
                                assert(in_range(after[ranges@.len() as int], i));
                            }
                        }
                        assert forall|j: int, i: int| 0 <= j < after.len() && #[trigger] in_range(after[j], i)
                            implies covered_before(lv, k, p + 1, i) by {
                            if j < ranges@.len() {
                                assert(after[j] == before[j]);
                                assert(in_range(before[j], i));
                                assert(covered_before(lv, k, p as int, i));
                            } else if i < r.1 {
                                assert(in_range(before[j], i));
                                assert(covered_before(lv, k, p as int, i));
                            } else {
                                assert(covers(lv, k, p as int, i));
                            }
                        }
                        assert forall|j1: int, j2: int| 0 <= j1 < j2 < after.len() implies
                            #[trigger] after[j1].1 < #[trigger] after[j2].0 by {
                            assert(before[j1].1 < before[j2].0);
                        }
                        assert forall|j: int| 0 <= j < after.len() implies
                            #[trigger] after[j].0 < after[j].1 <= lv.len() by {
                            assert(before[j].0 < before[j].1);
                        }
                    } else {
                        ranges.push(r);
                        current = Some(candidate);
                        let ghost after = ranges@.push(candidate);
                        assert(before =~= ranges@);
                        assert forall|i: int| #[trigger] covered_before(lv, k, p + 1, i) implies
                            exists|j: int| 0 <= j < after.len() && #[trigger] in_range(after[j], i) by {
                            let c = choose|c: int| #[trigger] covers(lv, k, c, i) && c < p + 1;
                            if c < p {
                                assert(covered_before(lv, k, p as int, i));
                                let j = choose|j: int| 0 <= j < before.len() && #[trigger] in_range(before[j], i);
                                assert(after[j] == before[j]);
                            } else {
                                assert(in_range(after[ranges@.len() as int], i));
                            }
                        }
                        assert forall|j: int, i: int| 0 <= j < after.len() && #[trigger] in_range(after[j], i)
                            implies covered_before(lv, k, p + 1, i) by {
                            if j < ranges@.len() {
                                assert(after[j] == before[j]);
                                assert(in_range(before[j], i));
                                assert(covered_before(lv, k, p as int, i));
                            } else {
                                assert(covers(lv, k, p as int, i));
                            }
                        }
                        assert forall|j1: int, j2: int| 0 <= j1 < j2 < after.len() implies
                            #[trigger] after[j1].1 < #[trigger] after[j2].0 by {
                            if j2 < ranges@.len() {
                                assert(before[j1].1 < before[j2].0);
                            } else if j1 < ranges@.len() - 1 {
                                assert(before[j1].1 < before[ranges@.len() - 1].0);
                                assert(before[ranges@.len() - 1].0 < before[ranges@.len() - 1].1);
                            }
                        }
                        assert forall|j: int| 0 <= j < after.len() implies
                            #[trigger] after[j].0 < after[j].1 <= lv.len() by {
                            if j < ranges@.len() {
                                assert(before[j].0 < before[j].1);
                            }
                        }
                    }
                },
            }
        } else {
            assert forall|i: int| #[trigger] covered_before(lv, k, p + 1, i) implies
                covered_before(lv, k, p as int, i) by {
                let c = choose|c: int| #[trigger] covers(lv, k, c, i) && c < p + 1;
                assert(c != p);
            }
            assert forall|j: int, i: int| 0 <= j < before.len() && #[trigger] in_range(before[j], i)
                implies covered_before(lv, k, p + 1, i) by {
                assert(covered_before(lv, k, p as int, i));
            }
        }
        p = p + 1;
    }
    match current {
        Some(r) => {
            ranges.push(r);
        },
        None => {},
    }
    ranges
}


fn slice_lines(lines: &Vec<LineDiff>, start: usize, end: usize) -> (result: Vec<LineDiff>)
    requires
        start <= end <= lines@.len(),
    ensures
        lines_view(result@) == lines_view(lines@).subrange(start as int, end as int),
{
    let mut result: Vec<LineDiff> = Vec::new();
    let mut m = start;
    while m < end
        invariant
            start <= m <= end <= lines@.len(),
            lines_view(result@) == lines_view(lines@).subrange(start as int, m as int),
        decreases end - m,
    {
        let line = lines[m].clone();
        let ghost old_result = lines_view(result@);
        result.push(line);
        assert(lines_view(result@) =~= old_result.push(line@));
        assert(lines_view(lines@).subrange(start as int, m + 1) =~= lines_view(lines@).subrange(
            start as int,
            m as int,
        ).push(lines@[m as int]@));
        m = m + 1;
    }
    result
}

fn hunks_from_ranges(lines: &Vec<LineDiff>, ranges: &Vec<(usize, usize)>) -> (hunks: Vec<DiffHunk>)
    requires
        numbers_bounded(lines_view(lines@)),
        forall|j: int| 0 <= j < ranges@.len() ==> #[trigger] ranges@[j].0 < ranges@[j].1 <= lines@.len(),
    ensures
        hunks_view(hunks@) == ranges@.map_values(|range: (usize, usize)| hunk_view(lines_view(lines@), range)),
{
    let ghost lv = lines_view(lines@);
    let mut hunks: Vec<DiffHunk> = Vec::new();
    let mut idx: usize = 0;
    while idx < ranges.len()
        invariant
            lv == lines_view(lines@),
            numbers_bounded(lv),
            forall|j: int| 0 <= j < ranges@.len() ==> #[trigger] ranges@[j].0 < ranges@[j].1 <= lines@.len(),
            idx <= ranges@.len(),
            hunks_view(hunks@) == ranges@.take(idx as int).map_values(|range: (usize, usize)| hunk_view(lv, range)),
        decreases ranges@.len() - idx,
    {
        let (start, end) = ranges[idx];
        assert(ranges@[idx as int].0 < ranges@[idx as int].1 <= lines@.len());
        let hunk_lines = slice_lines(lines, start, end);
        let added_count = count_kind(hunk_lines.as_slice(), LineDiffKind::Added);
        let removed_count = count_kind(hunk_lines.as_slice(), LineDiffKind::Removed);
        let old_start_line = hunk_start_line(lines, start, true);
        let new_start_line = hunk_start_line(lines, start, false);
        let hunk = DiffHunk { old_start_line, new_start_line, lines: hunk_lines, added_count, removed_count };
        assert(hunk@ == hunk_view(lv, ranges@[idx as int]));
        let ghost old_hunks = hunks_view(hunks@);
        hunks.push(hunk);
        assert(hunks_view(hunks@) =~= old_hunks.push(hunk@));
        assert(ranges@.take(idx + 1) =~= ranges@.take(idx as int).push(ranges@[idx as int]));
        assert(ranges@.take(idx + 1).map_values(|range: (usize, usize)| hunk_view(lv, range))
            =~= ranges@.take(idx as int).map_values(|range: (usize, usize)| hunk_view(lv, range)).push(
            hunk_view(lv, ranges@[idx as int]),
        ));
        idx = idx + 1;
    }
    assert(ranges@.take(ranges@.len() as int) =~= ranges@);
    hunks
}

/// Whether the two sizes together exceed the limit.
fn exceeds_limit(left: usize, right: usize, limit: usize) -> (result: bool)
    ensures
        result == (left + right > limit),
{
    match left.checked_add(right) {
        None => true,
        Some(total) => total > limit,
    }
}

/// The outcome that the line changes of two texts must have under
/// `policy`: the changes numbered on each side, and the hunks around them,
/// too large when there are more hunks than allowed.
pub open spec fn changes_outcome(
    policy: DiffPolicyView,
    changes: Seq<(LineDiffKind, Seq<char>)>,
    old_ends_with_newline: bool,
    new_ends_with_newline: bool,
    title_delta: DocumentTitleDeltaView,
    result: DiffComputation,
) -> bool {
    let lines = numbered_lines(changes);
    exists|ranges: Seq<(usize, usize)>|
        #[trigger] hunk_ranges(lines, policy.context_lines as int, ranges) && if ranges.len() > policy.max_hunks {
            result == DiffComputation::TooLarge(DiffLimitReason::Hunks)
        } else {
            result matches DiffComputation::Complete(diff) && diff@ == (DocumentDiffResultView {
                lines,
                hunks: ranges.map_values(|range: (usize, usize)| hunk_view(lines, range)),
                added_count: count_of_kind(lines, LineDiffKind::Added) as usize,
                removed_count: count_of_kind(lines, LineDiffKind::Removed) as usize,
                old_ends_with_newline,
                new_ends_with_newline,
                title_delta,
            })
        }
}

/// The outcome that comparing `left` and `right` under `policy` must have:
/// too large when the two texts together exceed the byte limit; otherwise,
/// after each CR LF and each lone CR became LF, too large when their lines
/// together exceed the line limit; otherwise what `changes_outcome` says of
/// the Myers diff of the two line lists.
pub open spec fn compare_outcome(
    policy: DiffPolicyView,
    left_bytes: usize,
    right_bytes: usize,
    left: Seq<char>,
    right: Seq<char>,
    title_delta: DocumentTitleDeltaView,
    result: DiffComputation,
) -> bool {
    if left_bytes + right_bytes > policy.sync_max_bytes {
        result == DiffComputation::TooLarge(DiffLimitReason::Bytes)
    } else {
        let old_text = normalized_line_endings(left);
        let new_text = normalized_line_endings(right);
        let old_lines = physical_lines(old_text);
        let new_lines = physical_lines(new_text);
        if old_lines.len() + new_lines.len() > policy.sync_max_lines {
            result == DiffComputation::TooLarge(DiffLimitReason::Lines)
        } else {
            changes_outcome(
                policy,
                myers_line_changes(old_lines, new_lines),
                ends_with_newline(old_text),
                ends_with_newline(new_text),
                title_delta,
                result,
            )
        }
    }
}

/// Turns the line changes of two texts into their diff under `policy`:
/// each line numbered on its sides, the additions and removals counted,
/// and the changes grouped into hunks with the policy's context lines,
/// as `changes_outcome` says.
pub fn diff_of_changes(
    policy: DiffPolicy,
    changes: &Vec<(LineDiffKind, String)>,
    old_ends_with_newline: bool,
    new_ends_with_newline: bool,
    title_delta: DocumentTitleDelta,
) -> (result: DiffComputation)
    ensures
        changes_outcome(policy@, changes_view(changes@), old_ends_with_newline, new_ends_with_newline, title_delta@, result),
        result matches DiffComputation::Complete(diff) ==> line_changes(diff@.lines) == changes_view(changes@),
{
    let lines = number_lines(changes);
    let added_count = count_kind(lines.as_slice(), LineDiffKind::Added);
    let removed_count = count_kind(lines.as_slice(), LineDiffKind::Removed);
    let ranges = hunk_ranges_of(&lines, policy.context_lines);
    let ghost lv = lines_view(lines@);
    assert(lv.len() == lines@.len());
    assert forall|j: int| 0 <= j < ranges@.len() implies #[trigger] ranges@[j].0 < ranges@[j].1 <= lines@.len() by {
        assert(ranges@[j].0 < ranges@[j].1 <= lv.len());
    }
    let hunks = hunks_from_ranges(&lines, &ranges);
    assert(line_changes(lv) =~= changes_view(changes@));
    assert(hunk_ranges(lv, policy@.context_lines as int, ranges@));
    assert(hunks_view(hunks@).len() == hunks@.len());
    assert(hunks@.len() == ranges@.len());
    if hunks.len() > policy.max_hunks {
        return DiffComputation::TooLarge(DiffLimitReason::Hunks);
    }
    DiffComputation::Complete(DocumentDiffResult {
        lines,
        hunks,
        added_count,
        removed_count,
        old_ends_with_newline,
        new_ends_with_newline,
        title_delta,
    })
}

/// The kind and text of each diff line.
pub open spec fn line_changes(lines: Seq<LineDiffView>) -> Seq<(LineDiffKind, Seq<char>)> {
    lines.map_values(|line: LineDiffView| (line.kind, line.text))
}

#[derive(Debug, Clone, Copy, PartialEq, Eq, Structural)]
pub struct DocumentLineDiffService {
    policy: DiffPolicy,
}

impl View for DocumentLineDiffService {
    type V = DiffPolicyView;

    closed spec fn view(&self) -> DiffPolicyView {
        self.policy@
    }
}

impl DocumentLineDiffService {
    pub fn with_policy(policy: DiffPolicy) -> (result: Self)
        ensures
            result@ == policy@,
    {
        Self { policy }
    }

    pub fn policy(&self) -> (result: DiffPolicy)
        ensures
            result@ == self@,
    {
        self.policy
    }

    /// Compares two texts line by line. The title delta of the two texts is
    /// handed in, as the document titles are read by the domain layer.
    pub fn compare(&self, left: &str, right: &str, title_delta: DocumentTitleDelta) -> (result: DiffComputation)
        ensures
            compare_outcome(
                self@,
                left.len(),
                right.len(),
                left@,
                right@,
                title_delta@,
                result,
            ),
            result matches DiffComputation::Complete(diff) ==> {
                &&& old_side(line_changes(diff@.lines)) == physical_lines(normalized_line_endings(left@))
                &&& new_side(line_changes(diff@.lines)) == physical_lines(normalized_line_endings(right@))
            },
    {
        if exceeds_limit(left.len(), right.len(), self.policy.sync_max_bytes) {
            return DiffComputation::TooLarge(DiffLimitReason::Bytes);
        }
        let left_chars = normalize_line_endings(&chars_of(left));
        let right_chars = normalize_line_endings(&chars_of(right));
        let old_ends_with_newline = left_chars.len() > 0 && left_chars[left_chars.len() - 1] == '\n';
        let new_ends_with_newline = right_chars.len() > 0 && right_chars[right_chars.len() - 1] == '\n';
        let old_lines = physical_lines_of(&left_chars);
        let new_lines = physical_lines_of(&right_chars);
        assert(strings_view(old_lines@).len() == old_lines@.len());
        assert(strings_view(new_lines@).len() == new_lines@.len());
        assert(left_chars@ == normalized_line_endings(left@));
        assert(self@.sync_max_lines == self.policy.sync_max_lines);
        if exceeds_limit(old_lines.len(), new_lines.len(), self.policy.sync_max_lines) {
            assert(physical_lines(normalized_line_endings(left@)).len() + physical_lines(normalized_line_endings(right@)).len() > self@.sync_max_lines);
            return DiffComputation::TooLarge(DiffLimitReason::Lines);
        }
        let changes = myers_diff_lines(&old_lines, &new_lines);
        assert(self@.context_lines == self.policy@.context_lines);
        diff_of_changes(self.policy, &changes, old_ends_with_newline, new_ends_with_newline, title_delta)
    }
}

impl Default for DocumentLineDiffService {
    fn default() -> (result: Self)
        ensures
            result@ == (DiffPolicyView {
                context_lines: 3,
                sync_max_bytes: 2097152,
                sync_max_lines: 100_000,
                max_hunks: 10_000,
            }),
    {
        Self::with_policy(DiffPolicy::default())
    }
}


/// The number of lines of the kind over all the hunks of the ranges.
pub open spec fn hunk_kind_sum(lines: Seq<LineDiffView>, ranges: Seq<(usize, usize)>, kind: LineDiffKind) -> nat
    decreases ranges.len(),
{
    if ranges.len() == 0 {
        0
    } else {
        hunk_kind_sum(lines, ranges.drop_last(), kind) + count_of_kind(
            lines.subrange(ranges.last().0 as int, ranges.last().1 as int),
            kind,
        )
    }
}

proof fn lemma_count_of_kind_zero(lines: Seq<LineDiffView>, kind: LineDiffKind)
    ensures
        count_of_kind(lines, kind) == 0 <==> forall|i: int| 0 <= i < lines.len() ==> lines[i].kind != kind,
    decreases lines.len(),
{
    if lines.len() > 0 {
        lemma_count_of_kind_zero(lines.drop_last(), kind);
        if count_of_kind(lines, kind) == 0 {
            assert forall|i: int| 0 <= i < lines.len() implies lines[i].kind != kind by {
                if i < lines.len() - 1 {
                    assert(lines.drop_last()[i] == lines[i]);
                }
            }
        }
        if forall|i: int| 0 <= i < lines.len() ==> lines[i].kind != kind {
            assert forall|i: int| 0 <= i < lines.drop_last().len() implies lines.drop_last()[i].kind != kind by {
                assert(lines.drop_last()[i] == lines[i]);
            }
            assert(lines.last() == lines[lines.len() - 1]);
        }
    }
}

proof fn lemma_count_of_kind_concat(a: Seq<LineDiffView>, b: Seq<LineDiffView>, kind: LineDiffKind)
    ensures
        count_of_kind(a + b, kind) == count_of_kind(a, kind) + count_of_kind(b, kind),
    decreases b.len(),
{
    if b.len() == 0 {
        assert(a + b =~= a);
    } else {
        lemma_count_of_kind_concat(a, b.drop_last(), kind);
        assert((a + b).drop_last() =~= a + b.drop_last());
        assert((a + b).last() == b.last());
    }
}

proof fn lemma_count_of_kind_split(lines: Seq<LineDiffView>, lo: int, mid: int, hi: int, kind: LineDiffKind)
    requires
        0 <= lo <= mid <= hi <= lines.len(),
    ensures
        count_of_kind(lines.subrange(lo, hi), kind) == count_of_kind(lines.subrange(lo, mid), kind) + count_of_kind(
            lines.subrange(mid, hi),
            kind,
        ),
{
    assert(lines.subrange(lo, hi) =~= lines.subrange(lo, mid) + lines.subrange(mid, hi));
    lemma_count_of_kind_concat(lines.subrange(lo, mid), lines.subrange(mid, hi), kind);
}

/// A line that lies in none of the hunk ranges is an unchanged line.
proof fn lemma_outside_hunks_unchanged(lines: Seq<LineDiffView>, context: int, ranges: Seq<(usize, usize)>, i: int)
    requires
        context >= 0,
        hunk_ranges(lines, context, ranges),
        0 <= i < lines.len(),
        forall|j: int| 0 <= j < ranges.len() ==> !in_range(ranges[j], i),
    ensures
        lines[i].kind == LineDiffKind::Equal,
{
    if lines[i].kind != LineDiffKind::Equal {
        assert(covers(lines, context, i, i));
        assert(covered_before(lines, context, lines.len() as int, i));
    }
}

/// The hunk ranges end in order: a later range ends after an earlier one.
proof fn lemma_hunk_ends_ordered(lines: Seq<LineDiffView>, context: int, ranges: Seq<(usize, usize)>, j1: int, j2: int)
    requires
        hunk_ranges(lines, context, ranges),
        0 <= j1 < j2 < ranges.len(),
    ensures
        ranges[j1].1 < ranges[j2].0 < ranges[j2].1,
{
    assert(ranges[j1].1 < ranges[j2].0);
    assert(ranges[j2].0 < ranges[j2].1);
}

proof fn lemma_hunk_sum_prefix(lines: Seq<LineDiffView>, context: int, ranges: Seq<(usize, usize)>, kind: LineDiffKind, k: int)
    requires
        context >= 0,
        kind != LineDiffKind::Equal,
        hunk_ranges(lines, context, ranges),
        0 <= k <= ranges.len(),
    ensures
        count_of_kind(lines.subrange(0, if k == 0 { 0 } else { ranges[k - 1].1 as int }), kind) == hunk_kind_sum(
            lines,
            ranges.take(k),
            kind,
        ),
    decreases k,
{
    if k == 0 {
        lemma_count_of_kind_zero(lines.subrange(0, 0), kind);
    } else {
        lemma_hunk_sum_prefix(lines, context, ranges, kind, k - 1);
        let end = if k - 1 == 0 { 0 } else { ranges[k - 2].1 as int };
        let r = ranges[k - 1];
        assert(r.0 < r.1 <= lines.len());
        if k - 1 > 0 {
            lemma_hunk_ends_ordered(lines, context, ranges, k - 2, k - 1);
        }
        assert(end <= r.0);
        let gap = lines.subrange(end, r.0 as int);
        assert forall|g: int| 0 <= g < gap.len() implies gap[g].kind != kind by {
            let i = end + g;
            assert(gap[g] == lines[i]);
            assert forall|j: int| 0 <= j < ranges.len() implies !in_range(ranges[j], i) by {
                if j < k - 1 {
                    if j < k - 2 {
                        lemma_hunk_ends_ordered(lines, context, ranges, j, k - 2);
                    }
                } else if j > k - 1 {
                    lemma_hunk_ends_ordered(lines, context, ranges, k - 1, j);
                }
            }
            lemma_outside_hunks_unchanged(lines, context, ranges, i);
        }
        lemma_count_of_kind_zero(gap, kind);
        lemma_count_of_kind_split(lines, 0, end, r.0 as int, kind);
        lemma_count_of_kind_split(lines, 0, r.0 as int, r.1 as int, kind);
        assert(lines.subrange(0, end) =~= lines.subrange(0, end).subrange(0, end));
        assert(ranges.take(k).drop_last() =~= ranges.take(k - 1));
        assert(ranges.take(k).last() == r);
    }
}

/// The hunk starts within `context` lines before an added or removed line
/// that it holds.
pub open spec fn starts_near_change(lines: Seq<LineDiffView>, context: int, range: (usize, usize)) -> bool {
    exists|c: int| #[trigger] is_change(lines, c) && range.0 <= c <= range.0 + context && c < range.1
}

/// The hunk ends within `context` lines after an added or removed line that
/// it holds.
pub open spec fn ends_near_change(lines: Seq<LineDiffView>, context: int, range: (usize, usize)) -> bool {
    exists|c: int| #[trigger] is_change(lines, c) && range.1 - 1 - context <= c <= range.1 - 1 && range.0 <= c
}

proof fn lemma_changes_in_hunks(lines: Seq<LineDiffView>, context: int, ranges: Seq<(usize, usize)>)
    requires
        context >= 0,
        hunk_ranges(lines, context, ranges),
    ensures
        forall|c: int| #[trigger] is_change(lines, c) ==> exists|j: int| 0 <= j < ranges.len() && #[trigger] in_range(ranges[j], c),
        (ranges.len() == 0) <==> (count_of_kind(lines, LineDiffKind::Added) + count_of_kind(lines, LineDiffKind::Removed) == 0),
{
    let n = lines.len() as int;
    lemma_count_of_kind_zero(lines, LineDiffKind::Added);
    lemma_count_of_kind_zero(lines, LineDiffKind::Removed);
    assert forall|c: int| #[trigger] is_change(lines, c) implies exists|j: int| 0 <= j < ranges.len() && #[trigger] in_range(ranges[j], c) by {
        assert(covers(lines, context, c, c));
        assert(covered_before(lines, context, n, c));
    }
    if ranges.len() == 0 {
        assert forall|i: int| 0 <= i < lines.len() implies lines[i].kind == LineDiffKind::Equal by {
            if lines[i].kind != LineDiffKind::Equal {
                assert(is_change(lines, i));
            }
        }
    } else {
        assert(in_range(ranges[0], ranges[0].0 as int));
        assert(covered_before(lines, context, n, ranges[0].0 as int));
        let c = choose|c: int| #[trigger] covers(lines, context, c, ranges[0].0 as int) && c < n;
        assert(lines[c].kind == LineDiffKind::Added || lines[c].kind == LineDiffKind::Removed);
    }
}

/// A covered line next to a hunk, outside it, cannot be.
proof fn lemma_no_covered_neighbor(lines: Seq<LineDiffView>, context: int, ranges: Seq<(usize, usize)>, j: int, i: int)
    requires
        hunk_ranges(lines, context, ranges),
        0 <= j < ranges.len(),
        i == ranges[j].0 - 1 || i == ranges[j].1,
    ensures
        !covered_before(lines, context, lines.len() as int, i),
{
    if covered_before(lines, context, lines.len() as int, i) {
        let j2 = choose|j2: int| 0 <= j2 < ranges.len() && #[trigger] in_range(ranges[j2], i);
        if j2 < j {
            lemma_hunk_ends_ordered(lines, context, ranges, j2, j);
        } else if j2 > j {
            lemma_hunk_ends_ordered(lines, context, ranges, j, j2);
        }
    }
}

proof fn lemma_all_hunks_near_changes(lines: Seq<LineDiffView>, context: int, ranges: Seq<(usize, usize)>)
    requires
        context >= 0,
        hunk_ranges(lines, context, ranges),
    ensures
        forall|j: int| 0 <= j < ranges.len() ==> #[trigger] starts_near_change(lines, context, ranges[j]),
        forall|j: int| 0 <= j < ranges.len() ==> #[trigger] ends_near_change(lines, context, ranges[j]),
{
    assert forall|j: int| 0 <= j < ranges.len() implies #[trigger] starts_near_change(lines, context, ranges[j]) by {
        lemma_hunk_starts_near_change(lines, context, ranges, j);
    }
    assert forall|j: int| 0 <= j < ranges.len() implies #[trigger] ends_near_change(lines, context, ranges[j]) by {
        lemma_hunk_ends_near_change(lines, context, ranges, j);
    }
}

proof fn lemma_hunk_starts_near_change(lines: Seq<LineDiffView>, context: int, ranges: Seq<(usize, usize)>, j: int)
    requires
        context >= 0,
        hunk_ranges(lines, context, ranges),
        0 <= j < ranges.len(),
    ensures
        starts_near_change(lines, context, ranges[j]),
{
    let n = lines.len() as int;
    let s = ranges[j].0 as int;
    assert(in_range(ranges[j], s));
    assert(covered_before(lines, context, n, s));
    let c = choose|c: int| #[trigger] covers(lines, context, c, s) && c < n;
    if c < s {
        assert(covers(lines, context, c, s - 1));
        lemma_no_covered_neighbor(lines, context, ranges, j, s - 1);
    }
    if c >= ranges[j].1 {
        let e = ranges[j].1 as int;
        assert(covers(lines, context, c, e));
        lemma_no_covered_neighbor(lines, context, ranges, j, e);
    }
    assert(is_change(lines, c));
}

proof fn lemma_hunk_ends_near_change(lines: Seq<LineDiffView>, context: int, ranges: Seq<(usize, usize)>, j: int)
    requires
        context >= 0,
        hunk_ranges(lines, context, ranges),
        0 <= j < ranges.len(),
    ensures
        ends_near_change(lines, context, ranges[j]),
{
    let n = lines.len() as int;
    let t = ranges[j].1 - 1;
    assert(in_range(ranges[j], t));
    assert(covered_before(lines, context, n, t));
    let c = choose|c: int| #[trigger] covers(lines, context, c, t) && c < n;
    if c > t {
        assert(covers(lines, context, c, t + 1));
        lemma_no_covered_neighbor(lines, context, ranges, j, t + 1);
    }
    if c < ranges[j].0 {
        let b = ranges[j].0 - 1;
        assert(covers(lines, context, c, b));
        lemma_no_covered_neighbor(lines, context, ranges, j, b);
    }
    assert(is_change(lines, c));
}

#[verifier::spinoff_prover]
proof fn lemma_hunk_sums(lines: Seq<LineDiffView>, context: int, ranges: Seq<(usize, usize)>, kind: LineDiffKind)
    requires
        context >= 0,
        kind != LineDiffKind::Equal,
        hunk_ranges(lines, context, ranges),
    ensures
        hunk_kind_sum(lines, ranges, kind) == count_of_kind(lines, kind),
{
    let n = lines.len() as int;
    let k = ranges.len() as int;
    let end = if k == 0 { 0 } else { ranges[k - 1].1 as int };
    assert(ranges.take(k) =~= ranges);
    if k > 0 {
        let r = ranges[k - 1];
        assert(r.0 < r.1 <= lines.len());
    }
    let tail = lines.subrange(end, n);
    assert forall|g: int| 0 <= g < tail.len() implies tail[g].kind != kind by {
        let i = end + g;
        assert(tail[g] == lines[i]);
        assert forall|j: int| 0 <= j < ranges.len() implies !in_range(ranges[j], i) by {
            if j < k - 1 {
                lemma_hunk_ends_ordered(lines, context, ranges, j, k - 1);
            }
        }
        lemma_outside_hunks_unchanged(lines, context, ranges, i);
    }
    lemma_count_of_kind_zero(tail, kind);
    if k > 0 {
        assert(ranges[k - 1].1 <= n);
    }
    lemma_count_of_kind_split(lines, 0, end, n, kind);
    assert(lines.subrange(0, n) =~= lines);
    lemma_hunk_sum_prefix(lines, context, ranges, kind, k);
}

/// The hunks of a diff: there are none exactly when nothing was added or
/// removed; every added or removed line lies in a hunk; each hunk starts and
/// ends within `context` lines of an added or removed line in it, so it
/// holds at most `context` unchanged lines before its first change and after
/// its last; and the hunks together hold as many added and as many removed
/// lines as the whole diff.
pub proof fn lemma_hunk_laws(lines: Seq<LineDiffView>, context: int, ranges: Seq<(usize, usize)>)
    requires
        context >= 0,
        hunk_ranges(lines, context, ranges),
    ensures
        (ranges.len() == 0) <==> (count_of_kind(lines, LineDiffKind::Added) + count_of_kind(lines, LineDiffKind::Removed) == 0),
        forall|c: int| #[trigger] is_change(lines, c) ==> exists|j: int| 0 <= j < ranges.len() && #[trigger] in_range(ranges[j], c),
        forall|j: int| 0 <= j < ranges.len() ==> #[trigger] starts_near_change(lines, context, ranges[j]),
        forall|j: int| 0 <= j < ranges.len() ==> #[trigger] ends_near_change(lines, context, ranges[j]),
        hunk_kind_sum(lines, ranges, LineDiffKind::Added) == count_of_kind(lines, LineDiffKind::Added),
        hunk_kind_sum(lines, ranges, LineDiffKind::Removed) == count_of_kind(lines, LineDiffKind::Removed),
{
    lemma_changes_in_hunks(lines, context, ranges);
    lemma_all_hunks_near_changes(lines, context, ranges);
    lemma_hunk_sums(lines, context, ranges, LineDiffKind::Added);
    lemma_hunk_sums(lines, context, ranges, LineDiffKind::Removed);
}


/// What holds of the hunk ranges of a diff's lines, as `lemma_hunk_laws`
/// states it.
pub open spec fn hunk_laws_hold(lines: Seq<LineDiffView>, context: int, ranges: Seq<(usize, usize)>) -> bool {
    &&& (ranges.len() == 0) <==> (count_of_kind(lines, LineDiffKind::Added) + count_of_kind(lines, LineDiffKind::Removed) == 0)
    &&& forall|c: int| #[trigger] is_change(lines, c) ==> exists|j: int| 0 <= j < ranges.len() && #[trigger] in_range(ranges[j], c)
    &&& forall|j: int| 0 <= j < ranges.len() ==> #[trigger] starts_near_change(lines, context, ranges[j])
    &&& forall|j: int| 0 <= j < ranges.len() ==> #[trigger] ends_near_change(lines, context, ranges[j])
    &&& hunk_kind_sum(lines, ranges, LineDiffKind::Added) == count_of_kind(lines, LineDiffKind::Added)
    &&& hunk_kind_sum(lines, ranges, LineDiffKind::Removed) == count_of_kind(lines, LineDiffKind::Removed)
}

/// The hunks of a completed comparison: they are the hunks of ranges of
/// its lines that are disjoint, in order and within bounds, no more than
/// the policy allows, and for which the hunk laws hold (no hunk exactly
/// when nothing changed, every change in a hunk, each hunk starting and
/// ending within the context of a change, and the hunks' added and removed
/// lines adding up to the diff's).
pub proof fn lemma_diff_hunk_laws(
    policy: DiffPolicyView,
    left_bytes: usize,
    right_bytes: usize,
    left: Seq<char>,
    right: Seq<char>,
    title_delta: DocumentTitleDeltaView,
    result: DiffComputation,
)
    requires
        compare_outcome(policy, left_bytes, right_bytes, left, right, title_delta, result),
        result is Complete,
    ensures
        exists|ranges: Seq<(usize, usize)>| {
            &&& #[trigger] hunk_ranges(result->Complete_0@.lines, policy.context_lines as int, ranges)
            &&& result->Complete_0@.hunks == ranges.map_values(
                |range: (usize, usize)| hunk_view(result->Complete_0@.lines, range),
            )
            &&& ranges.len() <= policy.max_hunks
            &&& hunk_laws_hold(result->Complete_0@.lines, policy.context_lines as int, ranges)
        },
{
    let lines = result->Complete_0@.lines;
    let ranges = choose|ranges: Seq<(usize, usize)>| #[trigger] hunk_ranges(lines, policy.context_lines as int, ranges) && if ranges.len() > policy.max_hunks {
        result == DiffComputation::TooLarge(DiffLimitReason::Hunks)
    } else {
        result matches DiffComputation::Complete(diff) && diff@.hunks == ranges.map_values(|range: (usize, usize)| hunk_view(lines, range))
    };
    lemma_hunk_laws(lines, policy.context_lines as int, ranges);
}

} // verus!
