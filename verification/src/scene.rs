//! The scene builder: what the view asks the host to draw.
//!
//! A rebuilt scene is a flat list of display items derived from the
//! laid-out section and the current interaction state: a highlight
//! rectangle for each line's selected span, a text item per visible run
//! with its resolved style, and a rule under each ruled frame. Geometry
//! that only the host's font machinery can measure (glyph placement,
//! underline metrics) stays with the host; the underline itself is part
//! of each text item's style.

use vstd::prelude::*;
use crate::geom::Rect;
use crate::layout::{Frame, Line, ParagraphStyle, Run, Section};
use crate::style::ComputedStyle;
use crate::text::{CharRange, Color, LinkId, TextRange};

verus! {

/// One thing the host is asked to draw.
#[derive(Clone, Copy, PartialEq, Eq, Structural, Debug)]
pub enum DisplayItem {
    /// The selection highlight behind part of one line.
    SelectionRect { rect: Rect, color: Color },
    /// One run of text, drawn with its resolved style at its line.
    TextRun { frame_index: usize, line_index: usize, run_index: usize, style: ComputedStyle },
    /// The rule under a ruled frame.
    FrameRule { rect: Rect },
}

/// The selection highlight for one line: the selection's span in the
/// line's paragraph, cut down to the line's characters; a rectangle from
/// the measured position of its first character to that of its last,
/// over the line's full height. Nothing where the selection misses the
/// line.
pub open spec fn spec_selection_rect_for_line(
    selection: TextRange,
    color: Color,
    frame_index: usize,
    frame_char_len: usize,
    line: Line,
) -> Option<DisplayItem> {
    match selection.spec_char_range_for_paragraph(frame_index, frame_char_len) {
        None => None,
        Some(cr0) => {
            let cr = cr0.spec_intersect(line.char_range);
            if cr.start < cr.end {
                let x0 = line.char_positions@[cr.start - line.char_range.start];
                let x1 = line.char_positions@[cr.end - line.char_range.start];
                Some(
                    DisplayItem::SelectionRect {
                        rect: Rect {
                            x: x0,
                            y: (line.origin_y - line.ascent) as i64,
                            width: (x1 - x0) as i64,
                            height: (line.ascent + line.descent) as i64,
                        },
                        color,
                    },
                )
            } else {
                None
            }
        },
    }
}

/// A selection highlight is always a real rectangle: measured positions
/// never decrease along a line and typographic bounds are nonnegative, so
/// its width and height are nonnegative.
pub proof fn lemma_selection_rect_nonnegative(
    selection: TextRange,
    color: Color,
    frame_index: usize,
    frame_char_len: usize,
    line: Line,
)
    requires
        line.wf(),
    ensures
        spec_selection_rect_for_line(selection, color, frame_index, frame_char_len, line)
            matches Some(item) ==> item matches DisplayItem::SelectionRect { rect, .. }
            && rect.width >= 0 && rect.height >= 0,
{
    if spec_selection_rect_for_line(selection, color, frame_index, frame_char_len, line)
        is Some {
        let cr0 = selection.spec_char_range_for_paragraph(frame_index, frame_char_len)->Some_0;
        let cr = cr0.spec_intersect(line.char_range);
        line.lemma_char_positions_sorted(
            cr.start - line.char_range.start,
            cr.end - line.char_range.start,
        );
    }
}

/// The text item for one run: its resolved style, present only when the
/// style names a font to draw with.
pub open spec fn spec_text_item_for_run(
    run: Run,
    active_link_id: Option<LinkId>,
    frame_index: usize,
    line_index: usize,
    run_index: usize,
) -> Option<DisplayItem> {
    let style = ComputedStyle::spec_from_formatting(run.formatting@, active_link_id);
    if style.font is Some {
        Some(DisplayItem::TextRun { frame_index, line_index, run_index, style })
    } else {
        None
    }
}

/// The decoration of a frame: a one-unit rule along its bottom edge when
/// its paragraph style asks for one.
pub open spec fn spec_frame_decoration(frame: Frame) -> Option<DisplayItem> {
    if frame.style == ParagraphStyle::Rule {
        Some(
            DisplayItem::FrameRule {
                rect: Rect {
                    x: frame.origin_x,
                    y: (frame.origin_y + frame.height - 1) as i64,
                    width: frame.width,
                    height: 1,
                },
            },
        )
    } else {
        None
    }
}

pub open spec fn opt_seq(item: Option<DisplayItem>) -> Seq<DisplayItem> {
    match item {
        Some(i) => seq![i],
        None => Seq::empty(),
    }
}

/// The text items of a line's runs from run `k` on, in order.
pub open spec fn spec_items_for_runs(
    line: Line,
    active_link_id: Option<LinkId>,
    frame_index: usize,
    line_index: usize,
    k: int,
) -> Seq<DisplayItem>
    decreases line.runs@.len() - k,
{
    if k < 0 || k >= line.runs@.len() {
        Seq::empty()
    } else {
        opt_seq(
            spec_text_item_for_run(
                line.runs@[k],
                active_link_id,
                frame_index,
                line_index,
                k as usize,
            ),
        ) + spec_items_for_runs(line, active_link_id, frame_index, line_index, k + 1)
    }
}

/// Everything drawn for one line: its selection highlight, then its runs.
pub open spec fn spec_items_for_line(
    line: Line,
    selection: Option<TextRange>,
    active_link_id: Option<LinkId>,
    color: Color,
    frame_index: usize,
    frame_char_len: usize,
    line_index: usize,
) -> Seq<DisplayItem> {
    let highlight: Seq<DisplayItem> = match selection {
        Some(sel) => opt_seq(
            spec_selection_rect_for_line(sel, color, frame_index, frame_char_len, line),
        ),
        None => Seq::empty(),
    };
    highlight + spec_items_for_runs(line, active_link_id, frame_index, line_index, 0)
}

/// The items of a frame's lines from line `k` on, in order.
pub open spec fn spec_items_for_lines(
    frame: Frame,
    selection: Option<TextRange>,
    active_link_id: Option<LinkId>,
    color: Color,
    frame_index: usize,
    k: int,
) -> Seq<DisplayItem>
    decreases frame.lines@.len() - k,
{
    if k < 0 || k >= frame.lines@.len() {
        Seq::empty()
    } else {
        spec_items_for_line(
            frame.lines@[k],
            selection,
            active_link_id,
            color,
            frame_index,
            frame.char_len,
            k as usize,
        ) + spec_items_for_lines(frame, selection, active_link_id, color, frame_index, k + 1)
    }
}

/// Everything drawn for one frame: its lines, then its decoration.
pub open spec fn spec_items_for_frame(
    frame: Frame,
    selection: Option<TextRange>,
    active_link_id: Option<LinkId>,
    color: Color,
    frame_index: usize,
) -> Seq<DisplayItem> {
    spec_items_for_lines(frame, selection, active_link_id, color, frame_index, 0) + opt_seq(
        spec_frame_decoration(frame),
    )
}

/// The items of a section's frames from frame `k` on, in order.
pub open spec fn spec_items_for_frames(
    section: Section,
    selection: Option<TextRange>,
    active_link_id: Option<LinkId>,
    color: Color,
    k: int,
) -> Seq<DisplayItem>
    decreases section.frames@.len() - k,
{
    if k < 0 || k >= section.frames@.len() {
        Seq::empty()
    } else {
        spec_items_for_frame(section.frames@[k], selection, active_link_id, color, k as usize)
            + spec_items_for_frames(section, selection, active_link_id, color, k + 1)
    }
}

/// The whole scene for a section under the given interaction state.
pub open spec fn spec_scene_items(
    section: Section,
    selection: Option<TextRange>,
    active_link_id: Option<LinkId>,
    color: Color,
) -> Seq<DisplayItem> {
    spec_items_for_frames(section, selection, active_link_id, color, 0)
}

/// Builds the display list for one scene: fed a laid-out section, it
/// collects the items the host should draw for the captured selection,
/// active link and highlight color.
pub struct SceneBuilder {
    pub layout_width: i64,
    pub layout_height: i64,
    pub items: Vec<DisplayItem>,
    pub selection: Option<TextRange>,
    pub active_link_id: Option<LinkId>,
    pub selection_background_color: Color,
}

impl SceneBuilder {
    /// An empty builder capturing the state the scene is built against.
    pub fn new(
        layout_width: i64,
        layout_height: i64,
        selection: Option<TextRange>,
        active_link_id: Option<LinkId>,
        selection_background_color: Color,
    ) -> (r: SceneBuilder)
        ensures
            r.layout_width == layout_width,
            r.layout_height == layout_height,
            r.items@ == Seq::<DisplayItem>::empty(),
            r.selection == selection,
            r.active_link_id == active_link_id,
            r.selection_background_color == selection_background_color,
    {
        SceneBuilder {
            layout_width,
            layout_height,
            items: Vec::new(),
            selection,
            active_link_id,
            selection_background_color,
        }
    }

    /// Append the whole scene for a section: per line a selection
    /// highlight where the selection crosses it and a text item per
    /// styled run, and per frame its decoration.
    pub fn build_display_list(&mut self, section: &Section)
        requires
            section.wf(),
        ensures
            final(self).items@ == old(self).items@ + spec_scene_items(
                *section,
                old(self).selection,
                old(self).active_link_id,
                old(self).selection_background_color,
            ),
            *final(self) == (SceneBuilder { items: final(self).items, ..*old(self) }),
    {
        let ghost sel = self.selection;
        let ghost active = self.active_link_id;
        let ghost color = self.selection_background_color;
        let ghost items0 = self.items@;
        let mut fi: usize = 0;
        while fi < section.frames.len()
            invariant
                section.wf(),
                sel == self.selection,
                active == self.active_link_id,
                color == self.selection_background_color,
                self.layout_width == old(self).layout_width,
                self.layout_height == old(self).layout_height,
                self.selection == old(self).selection,
                self.active_link_id == old(self).active_link_id,
                self.selection_background_color == old(self).selection_background_color,
                0 <= fi <= section.frames@.len(),
                items0 + spec_items_for_frames(*section, sel, active, color, 0) == self.items@
                    + spec_items_for_frames(*section, sel, active, color, fi as int),
            decreases section.frames@.len() - fi,
        {
            let ghost items_before = self.items@;
            self.build_frame(&section.frames[fi], fi);
            proof {
                assert(spec_items_for_frames(*section, sel, active, color, fi as int)
                    == spec_items_for_frame(section.frames@[fi as int], sel, active, color, fi)
                    + spec_items_for_frames(*section, sel, active, color, fi + 1));
                assert(items_before + (spec_items_for_frame(section.frames@[fi as int], sel,
                    active, color, fi) + spec_items_for_frames(*section, sel, active, color, fi
                    + 1)) =~= (items_before + spec_items_for_frame(section.frames@[fi as int],
                    sel, active, color, fi)) + spec_items_for_frames(*section, sel, active,
                    color, fi + 1));
            }
            fi = fi + 1;
        }
        proof {
            assert(spec_items_for_frames(*section, sel, active, color, fi as int)
                =~= Seq::<DisplayItem>::empty());
            assert(self.items@ + Seq::<DisplayItem>::empty() =~= self.items@);
            assert(spec_scene_items(*section, sel, active, color) == spec_items_for_frames(
                *section, sel, active, color, 0));
        }
    }

    /// Append one frame's items: its lines, then its decoration.
    fn build_frame(&mut self, frame: &Frame, frame_index: usize)
        requires
            frame.wf(),
        ensures
            final(self).items@ == old(self).items@ + spec_items_for_frame(
                *frame,
                old(self).selection,
                old(self).active_link_id,
                old(self).selection_background_color,
                frame_index,
            ),
            *final(self) == (SceneBuilder { items: final(self).items, ..*old(self) }),
    {
        let ghost sel = self.selection;
        let ghost active = self.active_link_id;
        let ghost color = self.selection_background_color;
        let ghost items0 = self.items@;
        let mut li: usize = 0;
        while li < frame.lines.len()
            invariant
                frame.wf(),
                sel == self.selection,
                active == self.active_link_id,
                color == self.selection_background_color,
                self.layout_width == old(self).layout_width,
                self.layout_height == old(self).layout_height,
                0 <= li <= frame.lines@.len(),
                items0 + spec_items_for_lines(*frame, sel, active, color, frame_index, 0)
                    == self.items@ + spec_items_for_lines(*frame, sel, active, color,
                    frame_index, li as int),
            decreases frame.lines@.len() - li,
        {
            let ghost items_before = self.items@;
            self.build_line(&frame.lines[li], frame_index, frame.char_len, li);
            proof {
                assert(spec_items_for_lines(*frame, sel, active, color, frame_index, li as int)
                    == spec_items_for_line(frame.lines@[li as int], sel, active, color,
                    frame_index, frame.char_len, li) + spec_items_for_lines(*frame, sel, active,
                    color, frame_index, li + 1));
                assert(items_before + (spec_items_for_line(frame.lines@[li as int], sel, active,
                    color, frame_index, frame.char_len, li) + spec_items_for_lines(*frame, sel,
                    active, color, frame_index, li + 1)) =~= (items_before + spec_items_for_line(
                    frame.lines@[li as int], sel, active, color, frame_index, frame.char_len,
                    li)) + spec_items_for_lines(*frame, sel, active, color, frame_index, li
                    + 1));
            }
            li = li + 1;
        }
        proof {
            assert(spec_items_for_lines(*frame, sel, active, color, frame_index, li as int)
                =~= Seq::<DisplayItem>::empty());
            assert(self.items@ + Seq::<DisplayItem>::empty() =~= self.items@);
        }
        let decoration = frame_decoration(frame);
        match decoration {
            Some(item) => {
                self.items.push(item);
                proof {
                    assert(self.items@ =~= items0 + spec_items_for_lines(*frame, sel, active,
                        color, frame_index, 0) + opt_seq(spec_frame_decoration(*frame)));
                    assert(items0 + spec_items_for_lines(*frame, sel, active, color, frame_index,
                        0) + opt_seq(spec_frame_decoration(*frame)) =~= items0 + (
                    spec_items_for_lines(*frame, sel, active, color, frame_index, 0) + opt_seq(
                        spec_frame_decoration(*frame))));
                }
            },
            None => {
                proof {
                    assert(self.items@ =~= items0 + (spec_items_for_lines(*frame, sel, active,
                        color, frame_index, 0) + opt_seq(spec_frame_decoration(*frame))));
                }
            },
        }
    }

    /// Append one line's items: its selection highlight, then its runs.
    fn build_line(&mut self, line: &Line, frame_index: usize, frame_char_len: usize, line_index: usize)
        requires
            line.wf(),
        ensures
            final(self).items@ == old(self).items@ + spec_items_for_line(
                *line,
                old(self).selection,
                old(self).active_link_id,
                old(self).selection_background_color,
                frame_index,
                frame_char_len,
                line_index,
            ),
            *final(self) == (SceneBuilder { items: final(self).items, ..*old(self) }),
    {
        let ghost sel = self.selection;
        let ghost active = self.active_link_id;
        let ghost color = self.selection_background_color;
        let ghost items0 = self.items@;
        match &self.selection {
            Some(selection) => {
                let highlight = selection_rect_for_line(
                    selection,
                    self.selection_background_color,
                    frame_index,
                    frame_char_len,
                    line,
                );
                if let Some(item) = highlight {
                    self.items.push(item);
                }
            },
            None => {},
        }
        let ghost after_highlight = self.items@;
        let mut ri: usize = 0;
        while ri < line.runs.len()
            invariant
                line.wf(),
                sel == self.selection,
                active == self.active_link_id,
                color == self.selection_background_color,
                self.layout_width == old(self).layout_width,
                self.layout_height == old(self).layout_height,
                0 <= ri <= line.runs@.len(),
                after_highlight + spec_items_for_runs(*line, active, frame_index, line_index, 0)
                    == self.items@ + spec_items_for_runs(*line, active, frame_index, line_index,
                    ri as int),
            decreases line.runs@.len() - ri,
        {
            let ghost items_before = self.items@;
            let item = text_item_for_run(
                &line.runs[ri],
                &self.active_link_id,
                frame_index,
                line_index,
                ri,
            );
            if let Some(it) = item {
                self.items.push(it);
            }
            proof {
                let this = opt_seq(spec_text_item_for_run(line.runs@[ri as int], active,
                    frame_index, line_index, ri));
                assert(self.items@ =~= items_before + this);
                assert(spec_items_for_runs(*line, active, frame_index, line_index, ri as int)
                    == this + spec_items_for_runs(*line, active, frame_index, line_index, ri
                    + 1));
                assert(items_before + (this + spec_items_for_runs(*line, active, frame_index,
                    line_index, ri + 1)) =~= (items_before + this) + spec_items_for_runs(*line,
                    active, frame_index, line_index, ri + 1));
            }
            ri = ri + 1;
        }
        proof {
            assert(spec_items_for_runs(*line, active, frame_index, line_index, ri as int)
                =~= Seq::<DisplayItem>::empty());
            assert(self.items@ + Seq::<DisplayItem>::empty() =~= self.items@);
            let highlight_seq: Seq<DisplayItem> = match sel {
                Some(s) => opt_seq(spec_selection_rect_for_line(s, color, frame_index,
                    frame_char_len, *line)),
                None => Seq::<DisplayItem>::empty(),
            };
            assert(after_highlight =~= items0 + highlight_seq);
            assert(items0 + (highlight_seq + spec_items_for_runs(*line, active, frame_index,
                line_index, 0)) =~= (items0 + highlight_seq) + spec_items_for_runs(*line, active,
                frame_index, line_index, 0));
        }
    }

    /// Hand the finished display list over.
    pub fn finalize(self) -> (r: Vec<DisplayItem>)
        ensures
            r == self.items,
    {
        self.items
    }
}

/// The selection highlight for one line, measured from the line's
/// character positions.
pub fn selection_rect_for_line(
    selection: &TextRange,
    color: Color,
    frame_index: usize,
    frame_char_len: usize,
    line: &Line,
) -> (r: Option<DisplayItem>)
    requires
        line.wf(),
    ensures
        r == spec_selection_rect_for_line(*selection, color, frame_index, frame_char_len, *line),
{
    let cr0 = match selection.char_range_for_paragraph(frame_index, frame_char_len) {
        None => {
            return None;
        },
        Some(cr0) => cr0,
    };
    let cr = cr0.intersect(&line.char_range);
    if cr.start < cr.end {
        let x0 = line.inline_position_for_char_index(cr.start);
        let x1 = line.inline_position_for_char_index(cr.end);
        Some(
            DisplayItem::SelectionRect {
                rect: Rect {
                    x: x0,
                    y: line.origin_y - line.ascent,
                    width: x1 - x0,
                    height: line.ascent + line.descent,
                },
                color,
            },
        )
    } else {
        None
    }
}

/// The text item for one run, with its style resolved.
pub fn text_item_for_run(
    run: &Run,
    active_link_id: &Option<LinkId>,
    frame_index: usize,
    line_index: usize,
    run_index: usize,
) -> (r: Option<DisplayItem>)
    ensures
        r == spec_text_item_for_run(*run, *active_link_id, frame_index, line_index, run_index),
{
    let style = ComputedStyle::from_formatting(&run.formatting, active_link_id);
    if style.font.is_some() {
        Some(DisplayItem::TextRun { frame_index, line_index, run_index, style })
    } else {
        None
    }
}

/// The rule under a ruled frame.
pub fn frame_decoration(frame: &Frame) -> (r: Option<DisplayItem>)
    requires
        frame.wf(),
    ensures
        r == spec_frame_decoration(*frame),
{
    match frame.style {
        ParagraphStyle::Rule => Some(
            DisplayItem::FrameRule {
                rect: Rect {
                    x: frame.origin_x,
                    y: frame.origin_y + frame.height - 1,
                    width: frame.width,
                    height: 1,
                },
            },
        ),
        ParagraphStyle::Plain => None,
    }
}

} // verus!
