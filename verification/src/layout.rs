//! The laid-out text tree the view works over, as plain data.
//!
//! A `Section` is the result of laying a `Document` out: one `Frame` per
//! paragraph, stacked vertically, each holding `Line`s, each holding `Run`s
//! of uniformly formatted characters. Lines carry the measured x-position
//! of every character boundary, so a content-space point can be resolved to
//! a character index; paragraphs carry their word-boundary positions, so a
//! character index can be expanded to the enclosing word.

use vstd::prelude::*;
use vstd::string::StrSliceExecFns;
use crate::geom::{ContentPoint, COORD_LIMIT};
use crate::text::{CharRange, Color, ImageId, LinkId};

verus! {

/// A hyperlink formatting attribute: an identifier and the target URL.
#[derive(Clone, PartialEq, Eq, Debug)]
pub struct Link {
    pub id: u32,
    pub url: String,
}

/// A font selection a formatting attribute names: a face and a sized
/// instance of it.
#[derive(Clone, Copy, PartialEq, Eq, Structural, Debug)]
pub struct FontSel {
    pub face_id: u32,
    pub font_id: u32,
}

/// One style attribute in a run's formatting stack. Attributes are applied
/// in order; the last one that sets a property wins.
#[derive(Clone, PartialEq, Eq, Debug)]
pub struct Format {
    pub font: Option<FontSel>,
    pub color: Option<Color>,
    pub link: Option<Link>,
    pub image: Option<ImageId>,
}

/// A contiguous span of characters in a line sharing one formatting stack.
#[derive(Clone, PartialEq, Eq, Debug)]
pub struct Run {
    pub char_range: CharRange,
    pub formatting: Vec<Format>,
}

impl Run {
    pub open spec fn wf(self) -> bool {
        self.char_range.start <= self.char_range.end
    }

    /// The character indices this run covers.
    pub fn char_range(&self) -> (r: CharRange)
        ensures
            r == self.char_range,
    {
        self.char_range
    }

    /// The last formatting attribute that carries a link, if any: the
    /// attribute stack applies innermost-last, so the last one wins.
    pub open spec fn spec_link(self) -> Option<Link> {
        Run::spec_last_link(self.formatting@)
    }

    pub open spec fn spec_last_link(formats: Seq<Format>) -> Option<Link>
        decreases formats.len(),
    {
        if formats.len() == 0 {
            None
        } else if formats.last().link is Some {
            formats.last().link
        } else {
            Run::spec_last_link(formats.drop_last())
        }
    }

    /// Whether any formatting attribute of this run carries a link.
    pub open spec fn spec_has_link(self) -> bool {
        exists|i: int| 0 <= i < self.formatting@.len() && self.formatting@[i].link is Some
    }

    /// The last formatting attribute whose link carries the currently
    /// active id, if any.
    pub open spec fn spec_last_matching_link(
        formats: Seq<Format>,
        active_link_id: Option<LinkId>,
    ) -> Option<Link>
        decreases formats.len(),
    {
        if formats.len() == 0 {
            None
        } else if formats.last().link matches Some(l) && active_link_id == Some(LinkId(l.id)) {
            formats.last().link
        } else {
            Run::spec_last_matching_link(formats.drop_last(), active_link_id)
        }
    }

    /// The last link attribute of this run, if any.
    pub fn last_link(&self) -> (r: Option<&Link>)
        ensures
            match r {
                Some(l) => self.spec_link() == Some(*l),
                None => self.spec_link() is None,
            },
    {
        let mut best: Option<&Link> = None;
        let mut i: usize = 0;
        proof {
            assert(self.formatting@.take(0) =~= Seq::<Format>::empty());
        }
        while i < self.formatting.len()
            invariant
                i <= self.formatting@.len(),
                match best {
                    Some(l) => Run::spec_last_link(self.formatting@.take(i as int)) == Some(*l),
                    None => Run::spec_last_link(self.formatting@.take(i as int)) is None,
                },
            decreases self.formatting@.len() - i,
        {
            if let Some(l) = &self.formatting[i].link {
                best = Some(l);
            }
            i = i + 1;
            proof {
                assert(self.formatting@.take(i as int).drop_last() =~= self.formatting@.take(
                    i as int - 1));
                assert(self.formatting@.take(i as int).last() == self.formatting@[i as int - 1]);
            }
        }
        proof {
            assert(self.formatting@.take(self.formatting@.len() as int) =~= self.formatting@);
        }
        best
    }

    /// The last link attribute of this run whose id is the active one, if
    /// any.
    pub fn last_matching_link(&self, active_link_id: &Option<LinkId>) -> (r: Option<&Link>)
        ensures
            match r {
                Some(l) => Run::spec_last_matching_link(self.formatting@, *active_link_id) == Some(
                    *l,
                ),
                None => Run::spec_last_matching_link(self.formatting@, *active_link_id) is None,
            },
    {
        let mut best: Option<&Link> = None;
        let mut i: usize = 0;
        proof {
            assert(self.formatting@.take(0) =~= Seq::<Format>::empty());
        }
        while i < self.formatting.len()
            invariant
                i <= self.formatting@.len(),
                match best {
                    Some(l) => Run::spec_last_matching_link(self.formatting@.take(i as int),
                        *active_link_id) == Some(*l),
                    None => Run::spec_last_matching_link(self.formatting@.take(i as int),
                        *active_link_id) is None,
                },
            decreases self.formatting@.len() - i,
        {
            if let Some(l) = &self.formatting[i].link {
                let matches_active = match active_link_id {
                    Some(active) => active.0 == l.id,
                    None => false,
                };
                if matches_active {
                    best = Some(l);
                }
            }
            i = i + 1;
            proof {
                assert(self.formatting@.take(i as int).drop_last() =~= self.formatting@.take(
                    i as int - 1));
                assert(self.formatting@.take(i as int).last() == self.formatting@[i as int - 1]);
            }
        }
        proof {
            assert(self.formatting@.take(self.formatting@.len() as int) =~= self.formatting@);
        }
        best
    }

    /// Whether any formatting attribute of this run carries a link.
    pub fn has_link(&self) -> (r: bool)
        ensures
            r == self.spec_has_link(),
    {
        let mut i: usize = 0;
        while i < self.formatting.len()
            invariant
                i <= self.formatting@.len(),
                forall|j: int| 0 <= j < i ==> (#[trigger] self.formatting@[j]).link is None,
            decreases self.formatting@.len() - i,
        {
            if self.formatting[i].link.is_some() {
                return true;
            }
            i = i + 1;
        }
        false
    }

    pub proof fn lemma_last_link_has(formats: Seq<Format>)
        ensures
            Run::spec_last_link(formats) is Some <==> exists|i: int|
                0 <= i < formats.len() && formats[i].link is Some,
        decreases formats.len(),
    {
        if formats.len() > 0 {
            Run::lemma_last_link_has(formats.drop_last());
            if Run::spec_last_link(formats) is Some {
                if formats.last().link is Some {
                    assert(formats[formats.len() - 1].link is Some);
                } else {
                    let i = choose|i: int|
                        0 <= i < formats.drop_last().len() && formats.drop_last()[i].link is Some;
                    assert(formats[i].link is Some);
                }
            } else {
                assert(forall|i: int|
                    0 <= i < formats.len() - 1 ==> formats.drop_last()[i] == formats[i]);
            }
        }
    }
}

/// A laid-out line: its origin and typographic bounds in content space,
/// the characters it covers, the measured x-position of every character
/// boundary, and its runs.
#[derive(Clone, PartialEq, Eq, Debug)]
pub struct Line {
    pub origin_x: i64,
    pub origin_y: i64,
    pub width: i64,
    pub ascent: i64,
    pub descent: i64,
    pub char_range: CharRange,
    pub char_positions: Vec<i64>,
    pub runs: Vec<Run>,
}

impl Line {
    pub open spec fn wf(self) -> bool {
        &&& -COORD_LIMIT <= self.origin_x <= COORD_LIMIT
        &&& -COORD_LIMIT <= self.origin_y <= COORD_LIMIT
        &&& 0 <= self.width <= COORD_LIMIT
        &&& 0 <= self.ascent <= COORD_LIMIT
        &&& 0 <= self.descent <= COORD_LIMIT
        &&& self.char_range.start <= self.char_range.end
        &&& self.char_positions@.len() == self.char_range.end - self.char_range.start + 1
        &&& forall|i: int|
            0 <= i < self.char_positions@.len() ==> -COORD_LIMIT <= #[trigger] self.char_positions@[i]
                <= COORD_LIMIT
        &&& forall|i: int|
            0 <= i < self.char_positions@.len() - 1 ==> #[trigger] self.char_positions@[i]
                <= self.char_positions@[i + 1]
        &&& forall|i: int| 0 <= i < self.runs@.len() ==> (#[trigger] self.runs@[i]).wf()
    }

    /// The line's vertical extent: from one ascent above its origin down to
    /// one descent below it.
    pub open spec fn spec_v_contains(self, c: ContentPoint) -> bool {
        c.y_in(self.origin_y - self.ascent, self.origin_y + self.descent)
    }

    pub fn v_contains(&self, c: &ContentPoint) -> (r: bool)
        requires
            self.wf(),
            c.wf(),
        ensures
            r == self.spec_v_contains(*c),
    {
        c.in_y(self.origin_y - self.ascent, self.origin_y + self.descent)
    }

    /// The first character slot whose measured x-interval contains the
    /// point, scanning from slot `k`.
    pub open spec fn spec_char_index_from(self, c: ContentPoint, k: int) -> Option<usize>
        decreases self.char_positions@.len() - k,
    {
        if k < 0 || k + 1 >= self.char_positions@.len() {
            None
        } else if c.x_in(self.char_positions@[k] as int, self.char_positions@[k + 1] as int) {
            Some((self.char_range.start + k) as usize)
        } else {
            self.spec_char_index_from(c, k + 1)
        }
    }

    pub open spec fn spec_char_index_for_position(self, c: ContentPoint) -> Option<usize> {
        self.spec_char_index_from(c, 0)
    }

    pub proof fn lemma_char_index_bounds(self, c: ContentPoint, k: int)
        requires
            self.wf(),
            0 <= k,
        ensures
            self.spec_char_index_from(c, k) matches Some(i) ==> self.char_range.start + k <= i
                < self.char_range.end,
        decreases self.char_positions@.len() - k,
    {
        if k + 1 < self.char_positions@.len() {
            self.lemma_char_index_bounds(c, k + 1);
        }
    }

    /// Resolve a content-space point to the character whose measured
    /// x-interval contains it; `None` when the point lies outside the
    /// line's measured extent (for an empty line, always).
    pub fn char_index_for_position(&self, c: &ContentPoint) -> (r: Option<usize>)
        requires
            self.wf(),
            c.wf(),
        ensures
            r == self.spec_char_index_for_position(*c),
            r matches Some(i) ==> self.char_range.spec_has(i),
    {
        proof {
            self.lemma_char_index_bounds(*c, 0);
        }
        let mut k: usize = 0;
        while k < self.char_positions.len() - 1
            invariant
                self.wf(),
                c.wf(),
                0 <= k < self.char_positions@.len(),
                self.spec_char_index_for_position(*c) == self.spec_char_index_from(*c, k as int),
            decreases self.char_positions@.len() - k,
        {
            if c.in_x(self.char_positions[k], self.char_positions[k + 1]) {
                return Some(self.char_range.start + k);
            }
            k = k + 1;
        }
        None
    }

    /// The first run of this line that covers a character index, scanning
    /// from run `k`.
    pub open spec fn spec_run_index_from(self, index: usize, k: int) -> Option<usize>
        decreases self.runs@.len() - k,
    {
        if k < 0 || k >= self.runs@.len() {
            None
        } else if self.runs@[k].char_range.spec_has(index) {
            Some(k as usize)
        } else {
            self.spec_run_index_from(index, k + 1)
        }
    }

    pub open spec fn spec_run_index_for_char(self, index: usize) -> Option<usize> {
        self.spec_run_index_from(index, 0)
    }

    pub proof fn lemma_run_index_bounds(self, index: usize, k: int)
        requires
            0 <= k,
            self.runs@.len() <= usize::MAX,
        ensures
            self.spec_run_index_from(index, k) matches Some(i) ==> k <= i < self.runs@.len()
                && self.runs@[i as int].char_range.spec_has(index),
        decreases self.runs@.len() - k,
    {
        if k < self.runs@.len() {
            self.lemma_run_index_bounds(index, k + 1);
        }
    }

    /// The first run of this line that covers the character index, if any.
    pub fn run_index_for_char(&self, index: usize) -> (r: Option<usize>)
        ensures
            r == self.spec_run_index_for_char(index),
            r matches Some(i) ==> i < self.runs@.len() && self.runs@[i as int].char_range.spec_has(
                index,
            ),
    {
        let n = self.runs.len();
        proof {
            self.lemma_run_index_bounds(index, 0);
        }
        let mut k: usize = 0;
        while k < n
            invariant
                n == self.runs@.len(),
                0 <= k <= self.runs@.len(),
                self.spec_run_index_for_char(index) == self.spec_run_index_from(index, k as int),
            decreases self.runs@.len() - k,
        {
            if self.runs[k].char_range.has(index) {
                return Some(k);
            }
            k = k + 1;
        }
        None
    }

    /// Measured positions never decrease along the line.
    pub proof fn lemma_char_positions_sorted(self, i: int, j: int)
        requires
            self.wf(),
            0 <= i <= j < self.char_positions@.len(),
        ensures
            self.char_positions@[i] <= self.char_positions@[j],
        decreases j - i,
    {
        if i < j {
            self.lemma_char_positions_sorted(i + 1, j);
        }
    }

    /// The measured x-position of a character boundary of this line.
    pub fn inline_position_for_char_index(&self, index: usize) -> (r: i64)
        requires
            self.wf(),
            self.char_range.start <= index <= self.char_range.end,
        ensures
            r == self.char_positions@[index - self.char_range.start],
    {
        self.char_positions[index - self.char_range.start]
    }
}

/// The style of decoration a paragraph frame carries.
#[derive(Clone, Copy, PartialEq, Eq, Structural, Debug)]
pub enum ParagraphStyle {
    Plain,
    Rule,
}

/// A laid-out paragraph: a vertical block of lines with its bounds in
/// content space.
#[derive(Clone, PartialEq, Eq, Debug)]
pub struct Frame {
    pub origin_x: i64,
    pub origin_y: i64,
    pub width: i64,
    pub height: i64,
    pub char_len: usize,
    pub style: ParagraphStyle,
    pub lines: Vec<Line>,
}

impl Frame {
    pub open spec fn wf(self) -> bool {
        &&& -COORD_LIMIT <= self.origin_x <= COORD_LIMIT
        &&& -COORD_LIMIT <= self.origin_y <= COORD_LIMIT
        &&& 0 <= self.width <= COORD_LIMIT
        &&& 0 <= self.height <= COORD_LIMIT
        &&& forall|i: int| 0 <= i < self.lines@.len() ==> (#[trigger] self.lines@[i]).wf()
        &&& forall|i: int|
            0 <= i < self.lines@.len() ==> (#[trigger] self.lines@[i]).char_range.end
                <= self.char_len
    }

    /// The frame's vertical extent in content space.
    pub open spec fn spec_v_contains(self, c: ContentPoint) -> bool {
        c.y_in(self.origin_y as int, self.origin_y + self.height)
    }

    pub fn v_contains(&self, c: &ContentPoint) -> (r: bool)
        requires
            self.wf(),
            c.wf(),
        ensures
            r == self.spec_v_contains(*c),
    {
        c.in_y(self.origin_y, self.origin_y + self.height)
    }

    /// The first line whose vertical extent contains the point, scanning
    /// from line `k`.
    pub open spec fn spec_line_index_from(self, c: ContentPoint, k: int) -> Option<usize>
        decreases self.lines@.len() - k,
    {
        if k < 0 || k >= self.lines@.len() {
            None
        } else if self.lines@[k].spec_v_contains(c) {
            Some(k as usize)
        } else {
            self.spec_line_index_from(c, k + 1)
        }
    }

    pub open spec fn spec_line_index_at_point(self, c: ContentPoint) -> Option<usize> {
        self.spec_line_index_from(c, 0)
    }

    pub proof fn lemma_line_index_props(self, c: ContentPoint, k: int)
        requires
            0 <= k,
            self.lines@.len() <= usize::MAX,
        ensures
            self.spec_line_index_from(c, k) matches Some(i) ==> k <= i < self.lines@.len()
                && self.lines@[i as int].spec_v_contains(c),
            (forall|i: int|
                k <= i < self.lines@.len() ==> !(#[trigger] self.lines@[i]).spec_v_contains(c))
                ==> self.spec_line_index_from(c, k) is None,
        decreases self.lines@.len() - k,
    {
        if k < self.lines@.len() {
            self.lemma_line_index_props(c, k + 1);
        }
    }

    /// Find the line containing a content-space point; `None` when the
    /// point lies in none of this frame's lines.
    pub fn line_index_at_point(&self, c: &ContentPoint) -> (r: Option<usize>)
        requires
            self.wf(),
            c.wf(),
        ensures
            r == self.spec_line_index_at_point(*c),
            r matches Some(i) ==> i < self.lines@.len() && self.lines@[i as int].spec_v_contains(
                *c,
            ),
    {
        let n = self.lines.len();
        proof {
            self.lemma_line_index_props(*c, 0);
        }
        let mut k: usize = 0;
        while k < n
            invariant
                self.wf(),
                c.wf(),
                n == self.lines@.len(),
                0 <= k <= self.lines@.len(),
                self.spec_line_index_at_point(*c) == self.spec_line_index_from(*c, k as int),
            decreases self.lines@.len() - k,
        {
            if self.lines[k].v_contains(c) {
                return Some(k);
            }
            k = k + 1;
        }
        None
    }

}

/// The whole laid-out section: one frame per paragraph of the document,
/// stacked vertically.
#[derive(Clone, PartialEq, Eq, Debug)]
pub struct Section {
    pub frames: Vec<Frame>,
}

impl Section {
    pub open spec fn wf(self) -> bool {
        forall|i: int| 0 <= i < self.frames@.len() ==> (#[trigger] self.frames@[i]).wf()
    }

    /// The first frame whose vertical extent contains the point, scanning
    /// from frame `k`.
    pub open spec fn spec_frame_index_from(self, c: ContentPoint, k: int) -> Option<usize>
        decreases self.frames@.len() - k,
    {
        if k < 0 || k >= self.frames@.len() {
            None
        } else if self.frames@[k].spec_v_contains(c) {
            Some(k as usize)
        } else {
            self.spec_frame_index_from(c, k + 1)
        }
    }

    pub open spec fn spec_frame_index_at_point(self, c: ContentPoint) -> Option<usize> {
        self.spec_frame_index_from(c, 0)
    }

    pub proof fn lemma_frame_index_props(self, c: ContentPoint, k: int)
        requires
            0 <= k,
            self.frames@.len() <= usize::MAX,
        ensures
            self.spec_frame_index_from(c, k) matches Some(i) ==> k <= i < self.frames@.len()
                && self.frames@[i as int].spec_v_contains(c),
            (forall|i: int|
                k <= i < self.frames@.len() ==> !(#[trigger] self.frames@[i]).spec_v_contains(c))
                ==> self.spec_frame_index_from(c, k) is None,
        decreases self.frames@.len() - k,
    {
        if k < self.frames@.len() {
            self.lemma_frame_index_props(c, k + 1);
        }
    }

    /// Find the frame containing a content-space point. Frames stack
    /// vertically; a point outside every frame's vertical extent resolves
    /// to `None`.
    pub fn frame_index_at_point(&self, c: &ContentPoint) -> (r: Option<usize>)
        requires
            self.wf(),
            c.wf(),
        ensures
            r == self.spec_frame_index_at_point(*c),
            r matches Some(i) ==> i < self.frames@.len() && self.frames@[i as int].spec_v_contains(
                *c,
            ),
            (forall|i: int|
                0 <= i < self.frames@.len() ==> !(#[trigger] self.frames@[i]).spec_v_contains(*c))
                ==> r is None,
    {
        let n = self.frames.len();
        proof {
            self.lemma_frame_index_props(*c, 0);
        }
        let mut k: usize = 0;
        while k < n
            invariant
                self.wf(),
                c.wf(),
                n == self.frames@.len(),
                0 <= k <= self.frames@.len(),
                self.spec_frame_index_at_point(*c) == self.spec_frame_index_from(*c, k as int),
            decreases self.frames@.len() - k,
        {
            if self.frames[k].v_contains(c) {
                return Some(k);
            }
            k = k + 1;
        }
        None
    }

    /// Check every structural and numeric bound of the section, so a host
    /// that assembled one from measured layout data can validate it before
    /// handing it to the view.
    pub fn check_wf(&self) -> (r: bool)
        ensures
            r == self.wf(),
    {
        let mut fi: usize = 0;
        while fi < self.frames.len()
            invariant
                0 <= fi <= self.frames@.len(),
                forall|i: int| 0 <= i < fi ==> (#[trigger] self.frames@[i]).wf(),
            decreases self.frames@.len() - fi,
        {
            if !check_frame_wf(&self.frames[fi]) {
                return false;
            }
            fi = fi + 1;
        }
        true
    }
}

fn check_run_wf(run: &Run) -> (r: bool)
    ensures
        r == run.wf(),
{
    run.char_range.start <= run.char_range.end
}

#[verifier::rlimit(80)]
fn check_line_wf(line: &Line) -> (r: bool)
    ensures
        r == line.wf(),
{
    if !(-COORD_LIMIT <= line.origin_x && line.origin_x <= COORD_LIMIT && -COORD_LIMIT
        <= line.origin_y && line.origin_y <= COORD_LIMIT && 0 <= line.width && line.width
        <= COORD_LIMIT && 0 <= line.ascent && line.ascent <= COORD_LIMIT && 0 <= line.descent
        && line.descent <= COORD_LIMIT) {
        return false;
    }
    if !(line.char_range.start <= line.char_range.end) {
        return false;
    }
    let pl = line.char_positions.len();
    if !(line.char_range.end - line.char_range.start < usize::MAX && pl == line.char_range.end
        - line.char_range.start + 1) {
        return false;
    }
    let mut i: usize = 0;
    while i < line.char_positions.len()
        invariant
            0 <= i <= line.char_positions@.len(),
            forall|j: int|
                0 <= j < i ==> -COORD_LIMIT <= #[trigger] line.char_positions@[j] <= COORD_LIMIT,
            forall|j: int|
                0 <= j < i - 1 ==> #[trigger] line.char_positions@[j] <= line.char_positions@[j
                    + 1],
        decreases line.char_positions@.len() - i,
    {
        if !(-COORD_LIMIT <= line.char_positions[i] && line.char_positions[i] <= COORD_LIMIT) {
            return false;
        }
        if i > 0 && !(line.char_positions[i - 1] <= line.char_positions[i]) {
            return false;
        }
        i = i + 1;
    }
    let mut k: usize = 0;
    while k < line.runs.len()
        invariant
            0 <= k <= line.runs@.len(),
            forall|j: int| 0 <= j < k ==> (#[trigger] line.runs@[j]).wf(),
        decreases line.runs@.len() - k,
    {
        if !check_run_wf(&line.runs[k]) {
            return false;
        }
        k = k + 1;
    }
    true
}

fn check_frame_wf(frame: &Frame) -> (r: bool)
    ensures
        r == frame.wf(),
{
    if !(-COORD_LIMIT <= frame.origin_x && frame.origin_x <= COORD_LIMIT && -COORD_LIMIT
        <= frame.origin_y && frame.origin_y <= COORD_LIMIT && 0 <= frame.width && frame.width
        <= COORD_LIMIT && 0 <= frame.height && frame.height <= COORD_LIMIT) {
        return false;
    }
    let mut li: usize = 0;
    while li < frame.lines.len()
        invariant
            0 <= li <= frame.lines@.len(),
            forall|i: int| 0 <= i < li ==> (#[trigger] frame.lines@[i]).wf(),
            forall|i: int|
                0 <= i < li ==> (#[trigger] frame.lines@[i]).char_range.end <= frame.char_len,
        decreases frame.lines@.len() - li,
    {
        if !check_line_wf(&frame.lines[li]) {
            return false;
        }
        if !(frame.lines[li].char_range.end <= frame.char_len) {
            return false;
        }
        li = li + 1;
    }
    true
}

/// One paragraph of the document: its text and the word segmentation the
/// layout engine computed for it, as the sorted list of word-boundary
/// character indices (first `0`, last the character count).
#[derive(Clone, PartialEq, Eq, Debug)]
pub struct Paragraph {
    pub text: String,
    pub word_breaks: Vec<usize>,
}

impl Paragraph {
    pub open spec fn spec_char_len(self) -> nat {
        self.text@.len()
    }

    pub open spec fn wf(self) -> bool {
        &&& self.text@.len() <= usize::MAX
        &&& self.word_breaks@.len() >= 1
        &&& self.word_breaks@[0] == 0
        &&& self.word_breaks@.last() == self.text@.len()
        &&& forall|i: int|
            0 <= i < self.word_breaks@.len() - 1 ==> #[trigger] self.word_breaks@[i]
                < self.word_breaks@[i + 1]
    }

    /// A word boundary: a position where a word starts or ends.
    pub open spec fn spec_is_word_boundary(self, index: usize) -> bool {
        self.word_breaks@.contains(index)
    }

    /// The number of characters in the paragraph.
    pub fn char_len(&self) -> (r: usize)
        requires
            self.wf(),
        ensures
            r == self.spec_char_len(),
    {
        self.text.as_str().unicode_len()
    }

    /// The first word segment whose end lies past `index`, scanning from
    /// segment `k`.
    pub open spec fn spec_word_segment_from(self, index: usize, k: int) -> int
        decreases self.word_breaks@.len() - k,
    {
        if k + 2 >= self.word_breaks@.len() {
            k
        } else if index < self.word_breaks@[k + 1] {
            k
        } else {
            self.spec_word_segment_from(index, k + 1)
        }
    }

    pub open spec fn spec_word_range_at(self, index: usize) -> CharRange {
        let k = self.spec_word_segment_from(index, 0);
        CharRange { start: self.word_breaks@[k], end: self.word_breaks@[k + 1] }
    }

    pub proof fn lemma_word_segment_props(self, index: usize, k: int)
        requires
            self.wf(),
            0 <= k < self.word_breaks@.len() - 1,
            self.word_breaks@[k] <= index,
        ensures
            ({
                let j = self.spec_word_segment_from(index, k);
                &&& k <= j < self.word_breaks@.len() - 1
                &&& self.word_breaks@[j] <= index
                &&& index < self.spec_char_len() ==> index < self.word_breaks@[j + 1]
            }),
        decreases self.word_breaks@.len() - k,
    {
        if !(k + 2 >= self.word_breaks@.len()) && !(index < self.word_breaks@[k + 1]) {
            self.lemma_word_segment_props(index, k + 1);
        }
    }

    /// What the enclosing word of a character is: it contains the
    /// character, ends within the paragraph, and both of its ends are
    /// word boundaries.
    pub proof fn lemma_word_range_at_props(self, index: usize)
        requires
            self.wf(),
            index < self.spec_char_len(),
        ensures
            ({
                let r = self.spec_word_range_at(index);
                &&& r.spec_has(index)
                &&& r.end <= self.spec_char_len()
                &&& self.spec_is_word_boundary(r.start)
                &&& self.spec_is_word_boundary(r.end)
            }),
    {
        self.lemma_word_segment_props(index, 0);
        let j = self.spec_word_segment_from(index, 0);
        assert(self.word_breaks@.last() == self.text@.len());
        Paragraph::lemma_breaks_sorted(self.word_breaks@, j + 1, self.word_breaks@.len() as int
            - 1);
        assert(self.spec_is_word_boundary(self.word_breaks@[j])) by {
            assert(self.word_breaks@[j] == self.word_breaks@.index(j));
        }
        assert(self.spec_is_word_boundary(self.word_breaks@[j + 1])) by {
            assert(self.word_breaks@[j + 1] == self.word_breaks@.index(j + 1));
        }
    }

    /// The enclosing word of a character: the widest range `[start, end)`
    /// of word-boundary positions with `start <= index < end`.
    pub fn word_range_at_char_index(&self, index: usize) -> (r: CharRange)
        requires
            self.wf(),
            index < self.spec_char_len(),
        ensures
            r == self.spec_word_range_at(index),
            r.spec_has(index),
            r.end <= self.spec_char_len(),
            self.spec_is_word_boundary(r.start),
            self.spec_is_word_boundary(r.end),
    {
        let n = self.word_breaks.len();
        assert(n >= 2) by {
            if self.word_breaks@.len() == 1 {
                assert(self.word_breaks@.last() == self.word_breaks@[0]);
            }
        }
        let mut k: usize = 0;
        while k < n - 2 && self.word_breaks[k + 1] <= index
            invariant
                self.wf(),
                n == self.word_breaks@.len(),
                2 <= n,
                0 <= k < self.word_breaks@.len() - 1,
                self.spec_word_segment_from(index, 0) == self.spec_word_segment_from(index,
                    k as int),
                self.word_breaks@[k as int] <= index,
            decreases self.word_breaks@.len() - k,
        {
            k = k + 1;
        }
        proof {
            self.lemma_word_segment_props(index, 0);
            let j = self.spec_word_segment_from(index, 0);
            assert(self.word_breaks@.last() == self.text@.len());
            Paragraph::lemma_breaks_sorted(self.word_breaks@, j + 1,
                self.word_breaks@.len() as int - 1);
            assert(self.spec_is_word_boundary(self.word_breaks@[j])) by {
                assert(self.word_breaks@[j] == self.word_breaks@.index(j));
            }
            assert(self.spec_is_word_boundary(self.word_breaks@[j + 1])) by {
                assert(self.word_breaks@[j + 1] == self.word_breaks@.index(j + 1));
            }
        }
        CharRange { start: self.word_breaks[k], end: self.word_breaks[k + 1] }
    }

    /// In a sorted boundary list, an earlier entry never exceeds a later
    /// one.
    pub proof fn lemma_breaks_sorted(breaks: Seq<usize>, i: int, j: int)
        requires
            forall|k: int| 0 <= k < breaks.len() - 1 ==> #[trigger] breaks[k] < breaks[k + 1],
            0 <= i <= j < breaks.len(),
        ensures
            breaks[i] <= breaks[j],
        decreases j - i,
    {
        if i < j {
            Paragraph::lemma_breaks_sorted(breaks, i + 1, j);
        }
    }

    /// Check the word-boundary list of one paragraph.
    pub fn check_wf(&self) -> (r: bool)
        ensures
            r == self.wf(),
    {
        let len = self.text.as_str().unicode_len();
        if self.word_breaks.len() < 1 {
            return false;
        }
        if self.word_breaks[0] != 0 {
            return false;
        }
        if self.word_breaks[self.word_breaks.len() - 1] != len {
            return false;
        }
        let mut i: usize = 0;
        while i < self.word_breaks.len() - 1
            invariant
                self.word_breaks@.len() >= 1,
                0 <= i < self.word_breaks@.len(),
                forall|j: int|
                    0 <= j < i ==> #[trigger] self.word_breaks@[j] < self.word_breaks@[j + 1],
            decreases self.word_breaks@.len() - i,
        {
            if !(self.word_breaks[i] < self.word_breaks[i + 1]) {
                return false;
            }
            i = i + 1;
        }
        true
    }
}

/// The document being displayed: its paragraphs in order.
#[derive(Clone, PartialEq, Eq, Debug)]
pub struct Document {
    pub paragraphs: Vec<Paragraph>,
}

impl Document {
    pub open spec fn wf(self) -> bool {
        forall|i: int| 0 <= i < self.paragraphs@.len() ==> (#[trigger] self.paragraphs@[i]).wf()
    }

    /// Check every paragraph of the document.
    pub fn check_wf(&self) -> (r: bool)
        ensures
            r == self.wf(),
    {
        let mut i: usize = 0;
        while i < self.paragraphs.len()
            invariant
                0 <= i <= self.paragraphs@.len(),
                forall|j: int| 0 <= j < i ==> (#[trigger] self.paragraphs@[j]).wf(),
            decreases self.paragraphs@.len() - i,
        {
            if !self.paragraphs[i].check_wf() {
                return false;
            }
            i = i + 1;
        }
        true
    }
}

/// Layout and document agree: one frame per paragraph, each covering the
/// paragraph's characters.
pub open spec fn section_matches_document(section: Section, document: Document) -> bool {
    &&& section.frames@.len() == document.paragraphs@.len()
    &&& forall|i: int|
        0 <= i < section.frames@.len() ==> (#[trigger] section.frames@[i]).char_len
            == document.paragraphs@[i].spec_char_len()
}

/// Check that a section is the layout of a document, frame for paragraph.
pub fn check_section_matches_document(section: &Section, document: &Document) -> (r: bool)
    requires
        document.wf(),
    ensures
        r == section_matches_document(*section, *document),
{
    if section.frames.len() != document.paragraphs.len() {
        return false;
    }
    let mut i: usize = 0;
    while i < section.frames.len()
        invariant
            document.wf(),
            section.frames@.len() == document.paragraphs@.len(),
            0 <= i <= section.frames@.len(),
            forall|j: int|
                0 <= j < i ==> (#[trigger] section.frames@[j]).char_len
                    == document.paragraphs@[j].spec_char_len(),
        decreases section.frames@.len() - i,
    {
        if section.frames[i].char_len != document.paragraphs[i].char_len() {
            return false;
        }
        i = i + 1;
    }
    true
}

} // verus!
