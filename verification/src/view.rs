//! The view itself: the state machine over selection, gesture status and
//! active link, driven by mouse events against the laid-out text.
//!
//! The view owns the document, its layout, the pan/zoom transform and the
//! interaction state. Mouse events arrive in viewport coordinates, are
//! mapped into content space through the inverse transform, resolved to a
//! character position, and applied to the selection. Every state change
//! that alters what is drawn raises `needs_rebuild`, asking the host to
//! regenerate its scene from the current state; a document or width change
//! additionally raises `needs_layout`, asking the host to lay the text out
//! again and hand the fresh `Section` back through `set_section`.

use std::collections::HashMap;
use vstd::prelude::*;
use crate::geom::{ContentPoint, Point, Transform, COORD_LIMIT};
use crate::layout::{section_matches_document, Document, Link, Run, Section};
use crate::style::spec_default_selection_background_color;
use crate::style::default_selection_background_color;
use crate::text::{
    Color, EventResult, ImageId, LinkId, MouseCursor, MouseEventKind, MouseStatus, Selection,
    SelectionDirection, TextLocation, TextRange,
};

verus! {

broadcast use vstd::std_specs::hash::group_hash_axioms;

/// A location on a word boundary of its (existing) paragraph.
pub open spec fn loc_word_aligned(doc: Document, loc: TextLocation) -> bool {
    &&& loc.paragraph_index < doc.paragraphs@.len()
    &&& doc.paragraphs@[loc.paragraph_index as int].spec_is_word_boundary(loc.character_index)
}

/// A resolved hit: the content-space point and the frame and line it fell
/// in. Produced by hit-testing and consumed immediately.
#[derive(Clone, Copy, PartialEq, Eq, Structural, Debug)]
pub struct HitTestResult {
    pub point: ContentPoint,
    pub frame_index: usize,
    pub line_index: usize,
}

/// Pixel data and size of one inline image, as the host supplied them.
#[derive(Clone, PartialEq, Eq, Debug)]
pub struct ImageInfo {
    pub width: u32,
    pub height: u32,
    pub data: Vec<u8>,
}

/// The text view: document, layout, transform and interaction state.
pub struct TextView {
    pub document: Document,
    pub section: Section,
    pub available_width: i64,
    pub viewport_width: u32,
    pub viewport_height: u32,
    pub transform: Transform,
    pub selection_background_color: Color,
    pub selection: Option<Selection>,
    pub active_link_id: Option<LinkId>,
    pub mouse_status: MouseStatus,
    pub images: HashMap<u32, ImageInfo>,
    pub debugger_enabled: bool,
    pub needs_layout: bool,
    pub needs_rebuild: bool,
}

impl TextView {
    /// Everything but the layout: document, transform and selection are
    /// sound.
    pub open spec fn wf_base(self) -> bool {
        &&& self.document.wf()
        &&& self.transform.wf()
        &&& 0 <= self.available_width <= COORD_LIMIT
        &&& match self.selection {
            Some(s) => s.wf(),
            None => true,
        }
    }

    /// The view invariant: sound state and a layout that matches the
    /// document paragraph for frame.
    pub open spec fn wf(self) -> bool {
        &&& self.wf_base()
        &&& self.section.wf()
        &&& section_matches_document(self.section, self.document)
    }

    /// A fresh view over a laid-out document: identity transform, no
    /// selection, no gesture in progress, and an initial scene build
    /// pending.
    pub fn new(
        document: Document,
        section: Section,
        viewport_width: u32,
        viewport_height: u32,
        available_width: i64,
    ) -> (r: TextView)
        requires
            document.wf(),
            section.wf(),
            section_matches_document(section, document),
            0 <= available_width <= COORD_LIMIT,
        ensures
            r.wf(),
            r.document == document,
            r.section == section,
            r.available_width == available_width,
            r.viewport_width == viewport_width,
            r.viewport_height == viewport_height,
            r.transform == (Transform { scale: 1, tx: 0, ty: 0 }),
            r.selection_background_color == spec_default_selection_background_color(),
            r.selection is None,
            r.active_link_id is None,
            r.mouse_status == MouseStatus::Up,
            r.images@ == Map::<u32, ImageInfo>::empty(),
            !r.debugger_enabled,
            !r.needs_layout,
            r.needs_rebuild,
    {
        TextView {
            document,
            section,
            available_width,
            viewport_width,
            viewport_height,
            transform: Transform::identity(),
            selection_background_color: default_selection_background_color(),
            selection: None,
            active_link_id: None,
            mouse_status: MouseStatus::Up,
            images: HashMap::new(),
            debugger_enabled: false,
            needs_layout: false,
            needs_rebuild: true,
        }
    }

    /// Where a viewport point falls in the laid-out text: the inverse
    /// transform applied, then the frame and line containing the result.
    pub open spec fn spec_hit_test_point(self, p: Point) -> Option<HitTestResult> {
        match self.transform.spec_inverse_transform_point(p) {
            None => None,
            Some(c) => match self.section.spec_frame_index_at_point(c) {
                None => None,
                Some(fi) => match self.section.frames@[fi as int].spec_line_index_at_point(c) {
                    None => None,
                    Some(li) => Some(HitTestResult { point: c, frame_index: fi, line_index: li }),
                },
            },
        }
    }

    /// Resolve a viewport point to a frame and line. Fails closed: a
    /// singular transform, or a point outside every frame's or every
    /// line's vertical extent, yields no hit.
    pub fn hit_test_point(&self, p: &Point) -> (r: Option<HitTestResult>)
        requires
            self.wf(),
            p.wf(),
        ensures
            r == self.spec_hit_test_point(*p),
            r matches Some(h) ==> {
                &&& h.point.wf()
                &&& self.transform.spec_inverse_transform_point(*p) == Some(h.point)
                &&& h.frame_index < self.section.frames@.len()
                &&& h.line_index < self.section.frames@[h.frame_index as int].lines@.len()
            },
            (self.transform.spec_inverse_transform_point(*p) matches Some(c) && (forall|i: int|
                0 <= i < self.section.frames@.len() ==> !(#[trigger] self.section.frames@[
                i]).spec_v_contains(c))) ==> r is None,
    {
        let c = match self.transform.inverse_transform_point(p) {
            None => {
                return None;
            },
            Some(c) => c,
        };
        let frame_index = match self.section.frame_index_at_point(&c) {
            None => {
                return None;
            },
            Some(fi) => fi,
        };
        let line_index = match self.section.frames[frame_index].line_index_at_point(&c) {
            None => {
                return None;
            },
            Some(li) => li,
        };
        Some(HitTestResult { point: c, frame_index, line_index })
    }

    /// The character position a viewport point lands on, if it resolves
    /// through frame, line and measured character intervals.
    pub open spec fn spec_char_hit(self, p: Point) -> Option<TextLocation> {
        match self.spec_hit_test_point(p) {
            None => None,
            Some(h) => {
                let line = self.section.frames@[h.frame_index as int].lines@[h.line_index as int];
                match line.spec_char_index_for_position(h.point) {
                    None => None,
                    Some(ci) => Some(
                        TextLocation {
                            paragraph_index: h.frame_index,
                            character_index: ci,
                        },
                    ),
                }
            },
        }
    }

    /// The link under a viewport point: the last link attribute of the run
    /// covering the character the point lands on.
    pub open spec fn spec_link_under(self, p: Point) -> Option<Link> {
        match self.spec_hit_test_point(p) {
            None => None,
            Some(h) => {
                let line = self.section.frames@[h.frame_index as int].lines@[h.line_index as int];
                match line.spec_char_index_for_position(h.point) {
                    None => None,
                    Some(ci) => match line.spec_run_index_for_char(ci) {
                        None => None,
                        Some(ri) => Run::spec_last_link(line.runs@[ri as int].formatting@),
                    },
                }
            },
        }
    }

    /// The cursor for a point: `Pointer` over a link, `Text` over
    /// resolvable text, `Default` where nothing resolves.
    pub open spec fn spec_mouse_cursor(self, p: Point) -> MouseCursor {
        match self.spec_hit_test_point(p) {
            None => MouseCursor::Default,
            Some(h) => {
                let line = self.section.frames@[h.frame_index as int].lines@[h.line_index as int];
                match line.spec_char_index_for_position(h.point) {
                    None => MouseCursor::Text,
                    Some(ci) => match line.spec_run_index_for_char(ci) {
                        None => MouseCursor::Text,
                        Some(ri) => if line.runs@[ri as int].spec_has_link() {
                            MouseCursor::Pointer
                        } else {
                            MouseCursor::Text
                        },
                    },
                }
            },
        }
    }

    /// The cursor glyph to show at a viewport point.
    pub fn get_mouse_cursor(&self, p: &Point) -> (r: MouseCursor)
        requires
            self.wf(),
            p.wf(),
        ensures
            r == self.spec_mouse_cursor(*p),
    {
        let h = match self.hit_test_point(p) {
            None => {
                return MouseCursor::Default;
            },
            Some(h) => h,
        };
        let line = &self.section.frames[h.frame_index].lines[h.line_index];
        let ci = match line.char_index_for_position(&h.point) {
            None => {
                return MouseCursor::Text;
            },
            Some(ci) => ci,
        };
        let ri = match line.run_index_for_char(ci) {
            None => {
                return MouseCursor::Text;
            },
            Some(ri) => ri,
        };
        if line.runs[ri].has_link() {
            MouseCursor::Pointer
        } else {
            MouseCursor::Text
        }
    }

    /// The forward selection a double click at `loc` makes: the enclosing
    /// word.
    pub open spec fn spec_word_selection(self, loc: TextLocation) -> Selection {
        let para = self.document.paragraphs@[loc.paragraph_index as int];
        let wr = para.spec_word_range_at(loc.character_index);
        Selection {
            range: TextRange {
                start: TextLocation {
                    paragraph_index: loc.paragraph_index,
                    character_index: wr.start,
                },
                end: TextLocation {
                    paragraph_index: loc.paragraph_index,
                    character_index: wr.end,
                },
            },
            direction: SelectionDirection::Forward,
        }
    }

    /// The forward selection a triple click in paragraph `pi` makes: the
    /// whole paragraph.
    pub open spec fn spec_paragraph_selection(self, pi: usize) -> Selection {
        let para = self.document.paragraphs@[pi as int];
        Selection {
            range: TextRange {
                start: TextLocation { paragraph_index: pi, character_index: 0 },
                end: TextLocation {
                    paragraph_index: pi,
                    character_index: para.spec_char_len() as usize,
                },
            },
            direction: SelectionDirection::Forward,
        }
    }

    /// The selection after a mouse-down: a double click selects the word,
    /// a triple click the paragraph, a single click clears; a miss (no
    /// hit at all) deselects, while a hit past the measured characters
    /// leaves the selection alone.
    pub open spec fn spec_down_selection(self, p: Point, kind: MouseEventKind) -> Option<
        Selection,
    > {
        match self.spec_char_hit(p) {
            None => if self.spec_hit_test_point(p) is None {
                None
            } else {
                self.selection
            },
            Some(loc) => if kind == MouseEventKind::LeftDouble {
                Some(self.spec_word_selection(loc))
            } else if kind == MouseEventKind::LeftTriple {
                Some(self.spec_paragraph_selection(loc.paragraph_index))
            } else {
                None
            },
        }
    }

    /// The link recorded as active by a mouse-down at `p`.
    pub open spec fn spec_down_active_link(self, p: Point) -> Option<LinkId> {
        match self.spec_link_under(p) {
            Some(l) => Some(LinkId(l.id)),
            None => None,
        }
    }

    /// Whether a mouse-down at `p` changes what is drawn.
    pub open spec fn spec_down_dirty(self, p: Point, kind: MouseEventKind) -> bool {
        match self.spec_char_hit(p) {
            None => self.spec_hit_test_point(p) is None && (self.selection is Some
                || self.active_link_id is Some),
            Some(_) => {
                ||| kind == MouseEventKind::LeftDouble
                ||| kind == MouseEventKind::LeftTriple
                ||| (kind == MouseEventKind::Left && self.selection is Some)
                ||| self.spec_link_under(p) is Some
            },
        }
    }

    /// Apply a mouse-down: select by click kind, record the pressed link
    /// and the gesture status, and request a rebuild when anything drawn
    /// changed.
    pub fn mouse_down(&mut self, p: &Point, kind: MouseEventKind)
        requires
            old(self).wf(),
            p.wf(),
        ensures
            final(self).wf(),
            final(self).selection == old(self).spec_down_selection(*p, kind),
            final(self).active_link_id == old(self).spec_down_active_link(*p),
            final(self).mouse_status == kind.spec_status_on_down(),
            final(self).needs_rebuild == (old(self).needs_rebuild || old(self).spec_down_dirty(
                *p,
                kind,
            )),
            final(self).document == old(self).document,
            final(self).section == old(self).section,
            final(self).transform == old(self).transform,
            final(self).available_width == old(self).available_width,
            final(self).viewport_width == old(self).viewport_width,
            final(self).viewport_height == old(self).viewport_height,
            final(self).selection_background_color == old(self).selection_background_color,
            final(self).images == old(self).images,
            final(self).debugger_enabled == old(self).debugger_enabled,
            final(self).needs_layout == old(self).needs_layout,
    {
        let mut active: Option<LinkId> = None;
        let mut dirty = false;
        let mut selection = self.selection;

        match self.hit_test_point(p) {
            Some(h) => {
                let line = &self.section.frames[h.frame_index].lines[h.line_index];
                if let Some(ci) = line.char_index_for_position(&h.point) {
                    proof {
                        assert(self.section.frames@[h.frame_index as int].char_len
                            == self.document.paragraphs@[h.frame_index as int].spec_char_len());
                    }
                    if kind == MouseEventKind::LeftDouble {
                        let para = &self.document.paragraphs[h.frame_index];
                        let wr = para.word_range_at_char_index(ci);
                        selection = Some(
                            Selection::forward(
                                TextRange {
                                    start: TextLocation::new(h.frame_index, wr.start),
                                    end: TextLocation::new(h.frame_index, wr.end),
                                },
                            ),
                        );
                        dirty = true;
                    } else if kind == MouseEventKind::LeftTriple {
                        let para = &self.document.paragraphs[h.frame_index];
                        let len = para.char_len();
                        selection = Some(
                            Selection::forward(
                                TextRange {
                                    start: TextLocation::new(h.frame_index, 0),
                                    end: TextLocation::new(h.frame_index, len),
                                },
                            ),
                        );
                        dirty = true;
                    } else if selection.is_some() {
                        selection = None;
                        dirty = true;
                    }
                    if let Some(ri) = line.run_index_for_char(ci) {
                        if let Some(l) = line.runs[ri].last_link() {
                            active = Some(LinkId(l.id));
                            dirty = true;
                        }
                    }
                }
            },
            None => {
                if selection.is_some() || self.active_link_id.is_some() {
                    dirty = true;
                }
                selection = None;
            },
        }

        self.selection = selection;
        self.active_link_id = active;
        self.mouse_status = match kind {
            MouseEventKind::LeftDouble => MouseStatus::LeftDouble,
            MouseEventKind::LeftTriple => MouseStatus::LeftTriple,
            MouseEventKind::Left => MouseStatus::LeftSingle,
        };
        if dirty {
            self.needs_rebuild = true;
        }
    }

    /// The direction flip a drag to `loc` applies: a forward selection
    /// dragged before its start turns backward, collapsing onto the old
    /// start; a backward selection dragged to or past its end turns
    /// forward, collapsing onto the old end. The anchor always becomes the
    /// fixed end.
    pub open spec fn spec_flip(sel: Selection, loc: TextLocation) -> Selection {
        if sel.direction == SelectionDirection::Forward && loc.spec_lt(sel.range.start) {
            Selection {
                range: TextRange { start: sel.range.start, end: sel.range.start },
                direction: SelectionDirection::Backward,
            }
        } else if sel.direction == SelectionDirection::Backward && sel.range.end.spec_le(loc) {
            Selection {
                range: TextRange { start: sel.range.end, end: sel.range.end },
                direction: SelectionDirection::Forward,
            }
        } else {
            sel
        }
    }

    /// The character index the moving endpoint snaps to under the current
    /// gesture's granularity: the enclosing word boundary after a double
    /// click, the paragraph boundary after a triple click, the exact
    /// character otherwise.
    pub open spec fn spec_drag_snapped_index(self, loc: TextLocation, forward: bool) -> usize {
        let para = self.document.paragraphs@[loc.paragraph_index as int];
        if self.mouse_status.is_double() {
            if forward {
                para.spec_word_range_at(loc.character_index).end
            } else {
                para.spec_word_range_at(loc.character_index).start
            }
        } else if self.mouse_status.is_triple() {
            if forward {
                para.spec_char_len() as usize
            } else {
                0
            }
        } else {
            loc.character_index
        }
    }

    /// The selection after a drag to `p`: unchanged when the point
    /// resolves to no character; started zero-width at the hit when none
    /// existed; otherwise flipped if the drag crossed the anchor, snapped
    /// to the gesture's granularity, and extended at the moving end.
    pub open spec fn spec_drag_selection(self, p: Point) -> Option<Selection> {
        match self.spec_char_hit(p) {
            None => self.selection,
            Some(loc) => match self.selection {
                None => Some(
                    Selection {
                        range: TextRange { start: loc, end: loc },
                        direction: SelectionDirection::Forward,
                    },
                ),
                Some(sel0) => {
                    let sel = TextView::spec_flip(sel0, loc);
                    if sel.direction == SelectionDirection::Forward {
                        Some(
                            Selection {
                                range: TextRange {
                                    start: sel.range.start,
                                    end: TextLocation {
                                        paragraph_index: loc.paragraph_index,
                                        character_index: self.spec_drag_snapped_index(loc, true),
                                    },
                                },
                                direction: SelectionDirection::Forward,
                            },
                        )
                    } else {
                        Some(
                            Selection {
                                range: TextRange {
                                    start: TextLocation {
                                        paragraph_index: loc.paragraph_index,
                                        character_index: self.spec_drag_snapped_index(loc, false),
                                    },
                                    end: sel.range.end,
                                },
                                direction: SelectionDirection::Backward,
                            },
                        )
                    }
                },
            },
        }
    }

    /// Apply a drag: extend or start the selection at the point's
    /// character, flipping direction when the drag crosses the anchor and
    /// snapping to the gesture's granularity; promote the gesture status,
    /// cancel any pressed link, and always request a rebuild.
    pub fn mouse_dragged(&mut self, p: &Point)
        requires
            old(self).wf(),
            p.wf(),
        ensures
            final(self).wf(),
            final(self).selection == old(self).spec_drag_selection(*p),
            final(self).selection matches Some(s) ==> s.range.start.spec_le(s.range.end),
            final(self).mouse_status == old(self).mouse_status.spec_promoted(),
            final(self).active_link_id is None,
            final(self).needs_rebuild,
            final(self).document == old(self).document,
            final(self).section == old(self).section,
            final(self).transform == old(self).transform,
            final(self).available_width == old(self).available_width,
            final(self).viewport_width == old(self).viewport_width,
            final(self).viewport_height == old(self).viewport_height,
            final(self).selection_background_color == old(self).selection_background_color,
            final(self).images == old(self).images,
            final(self).debugger_enabled == old(self).debugger_enabled,
            final(self).needs_layout == old(self).needs_layout,
    {
        match self.hit_test_point(p) {
            Some(h) => {
                let line = &self.section.frames[h.frame_index].lines[h.line_index];
                if let Some(ci) = line.char_index_for_position(&h.point) {
                    proof {
                        assert(self.section.frames@[h.frame_index as int].char_len
                            == self.document.paragraphs@[h.frame_index as int].spec_char_len());
                    }
                    let loc = TextLocation::new(h.frame_index, ci);
                    match self.selection {
                        None => {
                            self.selection = Some(
                                Selection::forward(TextRange { start: loc, end: loc }),
                            );
                        },
                        Some(sel0) => {
                            let mut sel = sel0;
                            if sel.direction == SelectionDirection::Forward && loc.lt(
                                &sel.range.start,
                            ) {
                                sel.direction = SelectionDirection::Backward;
                                sel.range.end = sel.range.start;
                            } else if sel.direction == SelectionDirection::Backward
                                && sel.range.end.le(&loc) {
                                sel.direction = SelectionDirection::Forward;
                                sel.range.start = sel.range.end;
                            }
                            let para = &self.document.paragraphs[h.frame_index];
                            let word = self.mouse_status == MouseStatus::LeftDouble
                                || self.mouse_status == MouseStatus::LeftDragDouble;
                            let paragraph = self.mouse_status == MouseStatus::LeftTriple
                                || self.mouse_status == MouseStatus::LeftDragTriple;
                            match sel.direction {
                                SelectionDirection::Forward => {
                                    let snapped = if word {
                                        para.word_range_at_char_index(ci).end
                                    } else if paragraph {
                                        para.char_len()
                                    } else {
                                        ci
                                    };
                                    sel.range.end = TextLocation::new(h.frame_index, snapped);
                                },
                                SelectionDirection::Backward => {
                                    let snapped = if word {
                                        para.word_range_at_char_index(ci).start
                                    } else if paragraph {
                                        0
                                    } else {
                                        ci
                                    };
                                    sel.range.start = TextLocation::new(h.frame_index, snapped);
                                },
                            }
                            self.selection = Some(sel);
                        },
                    }
                }
            },
            None => {},
        }

        match self.mouse_status {
            MouseStatus::LeftSingle => self.mouse_status = MouseStatus::LeftDragSingle,
            MouseStatus::LeftDouble => self.mouse_status = MouseStatus::LeftDragDouble,
            MouseStatus::LeftTriple => self.mouse_status = MouseStatus::LeftDragTriple,
            _ => {},
        }

        self.active_link_id = None;
        self.needs_rebuild = true;
    }

    /// The link a mouse-up at `p` activates: the last link attribute of
    /// the run under the point whose id matches the one recorded at
    /// mouse-down.
    pub open spec fn spec_up_link(self, p: Point) -> Option<Link> {
        match self.spec_hit_test_point(p) {
            None => None,
            Some(h) => {
                let line = self.section.frames@[h.frame_index as int].lines@[h.line_index as int];
                match line.spec_char_index_for_position(h.point) {
                    None => None,
                    Some(ci) => match line.spec_run_index_for_char(ci) {
                        None => None,
                        Some(ri) => Run::spec_last_matching_link(
                            line.runs@[ri as int].formatting@,
                            self.active_link_id,
                        ),
                    },
                }
            },
        }
    }

    /// Apply a mouse-up: open the link if the point still lies on the one
    /// pressed at mouse-down, clear the selection after a plain click with
    /// no drag, and reset the gesture.
    pub fn mouse_up(&mut self, p: &Point, _kind: MouseEventKind) -> (r: EventResult)
        requires
            old(self).wf(),
            p.wf(),
        ensures
            final(self).wf(),
            old(self).spec_up_link(*p) matches Some(link) ==> r == EventResult::OpenUrl(link.url),
            old(self).spec_up_link(*p) is None ==> r == EventResult::Nothing,
            final(self).selection == if old(self).mouse_status == MouseStatus::LeftSingle {
                None
            } else {
                old(self).selection
            },
            old(self).mouse_status == MouseStatus::LeftSingle ==> final(self).selection is None,
            final(self).mouse_status == MouseStatus::Up,
            final(self).active_link_id is None,
            final(self).needs_rebuild == (old(self).needs_rebuild || old(self).active_link_id
                is Some || old(self).mouse_status == MouseStatus::LeftSingle),
            final(self).document == old(self).document,
            final(self).section == old(self).section,
            final(self).transform == old(self).transform,
            final(self).available_width == old(self).available_width,
            final(self).viewport_width == old(self).viewport_width,
            final(self).viewport_height == old(self).viewport_height,
            final(self).selection_background_color == old(self).selection_background_color,
            final(self).images == old(self).images,
            final(self).debugger_enabled == old(self).debugger_enabled,
            final(self).needs_layout == old(self).needs_layout,
    {
        let mut event_result = EventResult::Nothing;
        let mut dirty = self.active_link_id.is_some();

        match self.hit_test_point(p) {
            Some(h) => {
                let line = &self.section.frames[h.frame_index].lines[h.line_index];
                if let Some(ci) = line.char_index_for_position(&h.point) {
                    if let Some(ri) = line.run_index_for_char(ci) {
                        if let Some(l) = line.runs[ri].last_matching_link(&self.active_link_id) {
                            event_result = EventResult::OpenUrl(l.url.clone());
                        }
                    }
                }
            },
            None => {},
        }

        if self.mouse_status == MouseStatus::LeftSingle {
            self.selection = None;
            dirty = true;
        }
        self.mouse_status = MouseStatus::Up;
        self.active_link_id = None;

        if dirty {
            self.needs_rebuild = true;
        }
        event_result
    }

    /// The selection select-all makes: from the beginning of the document
    /// to the end of its last paragraph (zero-width at the origin for an
    /// empty document).
    pub open spec fn spec_select_all_selection(self) -> Selection {
        let pcount = self.document.paragraphs@.len();
        let pi: usize = if pcount == 0 {
            0
        } else {
            (pcount - 1) as usize
        };
        let ci: usize = if pi < pcount {
            self.document.paragraphs@[pi as int].spec_char_len() as usize
        } else {
            0
        };
        Selection {
            range: TextRange {
                start: TextLocation { paragraph_index: 0, character_index: 0 },
                end: TextLocation { paragraph_index: pi, character_index: ci },
            },
            direction: SelectionDirection::Forward,
        }
    }

    /// Select the whole document and request a rebuild.
    pub fn select_all(&mut self)
        requires
            old(self).wf(),
        ensures
            final(self).wf(),
            *final(self) == (TextView {
                selection: Some(old(self).spec_select_all_selection()),
                needs_rebuild: true,
                ..*old(self)
            }),
    {
        let paragraph_count = self.document.paragraphs.len();
        let paragraph_index = if paragraph_count == 0 {
            0
        } else {
            paragraph_count - 1
        };
        let character_index = if paragraph_index < paragraph_count {
            self.document.paragraphs[paragraph_index].char_len()
        } else {
            0
        };
        let end = TextLocation::new(paragraph_index, character_index);
        self.selection = Some(Selection::forward(TextRange { start: TextLocation::beginning(), end }));
        self.needs_rebuild = true;
    }

    /// The characters a range of the document covers: each touched
    /// paragraph's slice of the range, clamped to the paragraph, the
    /// paragraphs joined by a newline, starting at paragraph `pi`.
    pub open spec fn spec_copy_text(doc: Document, range: TextRange, pi: int) -> Seq<char>
        decreases range.end.paragraph_index + 1 - pi,
    {
        if pi < 0 || pi > range.end.paragraph_index || pi >= doc.paragraphs@.len() {
            Seq::empty()
        } else {
            let para = doc.paragraphs@[pi];
            let len: usize = para.spec_char_len() as usize;
            let cr = range.spec_char_range_for_paragraph(pi as usize, len)->Some_0;
            let lo: usize = if cr.start <= len {
                cr.start
            } else {
                len
            };
            let hi0: usize = if cr.end <= len {
                cr.end
            } else {
                len
            };
            let hi: usize = if hi0 >= lo {
                hi0
            } else {
                lo
            };
            let sep: Seq<char> = if pi < range.end.paragraph_index && pi + 1
                < doc.paragraphs@.len() {
                seq!['\n']
            } else {
                Seq::empty()
            };
            para.text@.subrange(lo as int, hi as int) + sep + TextView::spec_copy_text(
                doc,
                range,
                pi + 1,
            )
        }
    }

    /// The selected text, if a selection exists: the selection's slice of
    /// each paragraph it touches, paragraphs joined by a newline.
    pub fn copy_selected_text(&self) -> (r: Option<String>)
        requires
            self.wf(),
        ensures
            r is Some <==> self.selection is Some,
            self.selection matches Some(sel) ==> (r matches Some(s) && s@
                == TextView::spec_copy_text(
                self.document,
                sel.range,
                sel.range.start.paragraph_index as int,
            )),
    {
        let sel = match &self.selection {
            None => {
                return None;
            },
            Some(sel) => sel,
        };
        let range = sel.range;
        let mut out = String::new();
        let mut pi: usize = range.start.paragraph_index;
        proof {
            assert(out@ + TextView::spec_copy_text(self.document, range, pi as int)
                =~= TextView::spec_copy_text(self.document, range,
                range.start.paragraph_index as int));
        }
        while pi <= range.end.paragraph_index && pi < self.document.paragraphs.len()
            invariant
                self.wf(),
                range.start.paragraph_index <= pi,
                out@ + TextView::spec_copy_text(self.document, range, pi as int)
                    == TextView::spec_copy_text(self.document, range,
                    range.start.paragraph_index as int),
            decreases range.end.paragraph_index + 1 - pi,
        {
            let ghost out0 = out@;
            let para = &self.document.paragraphs[pi];
            let len = para.char_len();
            let cr = range.char_range_for_paragraph(pi, len).unwrap();
            let lo = if cr.start <= len {
                cr.start
            } else {
                len
            };
            let hi0 = if cr.end <= len {
                cr.end
            } else {
                len
            };
            let hi = if hi0 >= lo {
                hi0
            } else {
                lo
            };
            out.append(para.text.as_str().substring_char(lo, hi));
            let sep = pi < range.end.paragraph_index && pi + 1 < self.document.paragraphs.len();
            if sep {
                out.append("\n");
            }
            proof {
                reveal_strlit("\n");
                assert("\n"@ =~= seq!['\n']);
                let tail = TextView::spec_copy_text(self.document, range, pi + 1 as int);
                let slice = para.text@.subrange(lo as int, hi as int);
                let seps: Seq<char> = if sep {
                    seq!['\n']
                } else {
                    Seq::empty()
                };
                assert(TextView::spec_copy_text(self.document, range, pi as int) == slice + seps
                    + tail);
                assert(out@ == out0 + slice + seps);
                assert(out@ + tail =~= out0 + (slice + seps + tail));
            }
            pi = pi + 1;
        }
        proof {
            assert(TextView::spec_copy_text(self.document, range, pi as int) =~= Seq::empty());
            assert(out@ + Seq::<char>::empty() =~= out@);
        }
        Some(out)
    }

    /// The width and height of the laid-out text: the available width, by
    /// the bottom of the last line of the last frame.
    pub open spec fn spec_layout_size(self) -> (i64, i64) {
        let height: i64 = if self.section.frames@.len() == 0 {
            0
        } else {
            let frame = self.section.frames@.last();
            if frame.lines@.len() == 0 {
                0
            } else {
                (frame.lines@.last().origin_y + frame.lines@.last().descent) as i64
            }
        };
        (self.available_width, height)
    }

    /// The size of the laid-out text, width and height.
    pub fn layout_size(&self) -> (r: (i64, i64))
        requires
            self.wf(),
        ensures
            r == self.spec_layout_size(),
    {
        let height: i64 = if self.section.frames.len() == 0 {
            0
        } else {
            let frame = &self.section.frames[self.section.frames.len() - 1];
            if frame.lines.len() == 0 {
                0
            } else {
                let line = &frame.lines[frame.lines.len() - 1];
                line.origin_y + line.descent
            }
        };
        (self.available_width, height)
    }

    /// What a repaint hands the renderer along with the scene: the pan
    /// vector and zoom factor recorded in the transform, and the viewport
    /// size. The blocking render rendezvous itself belongs to the host.
    pub fn repaint_params(&self) -> (r: (i64, i64, i64, u32, u32))
        ensures
            r == (
                self.transform.tx,
                self.transform.ty,
                self.transform.scale,
                self.viewport_width,
                self.viewport_height,
            ),
    {
        (
            self.transform.tx,
            self.transform.ty,
            self.transform.scale,
            self.viewport_width,
            self.viewport_height,
        )
    }

    /// The width the text is laid out against.
    pub fn available_width(&self) -> (r: i64)
        ensures
            r == self.available_width,
    {
        self.available_width
    }

    /// Change the layout width; the text must be laid out again.
    pub fn set_available_width(&mut self, available_width: i64)
        requires
            0 <= available_width <= COORD_LIMIT,
        ensures
            *final(self) == (TextView {
                available_width,
                needs_layout: true,
                needs_rebuild: true,
                ..*old(self)
            }),
    {
        self.available_width = available_width;
        self.layout();
    }

    /// Record a pan: the transform translates by the negated origin.
    pub fn set_translation(&mut self, x: i64, y: i64)
        requires
            -COORD_LIMIT <= x <= COORD_LIMIT,
            -COORD_LIMIT <= y <= COORD_LIMIT,
        ensures
            *final(self) == (TextView {
                transform: Transform {
                    tx: (-x) as i64,
                    ty: (-y) as i64,
                    ..old(self).transform
                },
                ..*old(self)
            }),
    {
        self.transform.tx = -x;
        self.transform.ty = -y;
    }

    /// Resize the viewport.
    pub fn set_viewport_size(&mut self, viewport_width: u32, viewport_height: u32)
        ensures
            *final(self) == (TextView { viewport_width, viewport_height, ..*old(self) }),
    {
        self.viewport_width = viewport_width;
        self.viewport_height = viewport_height;
    }

    /// Set the zoom factor. A zero scale makes the transform singular:
    /// hit-testing then resolves nothing.
    pub fn set_scale(&mut self, factor: i64)
        requires
            0 <= factor <= crate::geom::SCALE_LIMIT,
        ensures
            *final(self) == (TextView {
                transform: Transform { scale: factor, ..old(self).transform },
                ..*old(self)
            }),
    {
        self.transform.scale = factor;
    }

    /// Set the color selected text is highlighted with.
    pub fn set_selection_background_color(&mut self, color: Color)
        ensures
            *final(self) == (TextView { selection_background_color: color, ..*old(self) }),
    {
        self.selection_background_color = color;
    }

    /// Record whether the host's renderer debugger is enabled.
    pub fn set_debugger_enabled(&mut self, enabled: bool)
        ensures
            *final(self) == (TextView { debugger_enabled: enabled, ..*old(self) }),
    {
        self.debugger_enabled = enabled;
    }

    /// Borrow the document for editing; afterwards the host must report
    /// the change through `document_changed` and relayout.
    pub fn document_mut(&mut self) -> (r: &mut Document)
        ensures
            *r == old(self).document,
            *final(self) == (TextView { document: *final(r), ..*old(self) }),
    {
        &mut self.document
    }

    /// The document has changed: the text must be laid out and drawn
    /// again.
    pub fn document_changed(&mut self)
        ensures
            *final(self) == (TextView { needs_layout: true, needs_rebuild: true, ..*old(self) }),
    {
        self.layout();
    }

    /// Request a fresh layout and, with it, a fresh scene.
    fn layout(&mut self)
        ensures
            *final(self) == (TextView { needs_layout: true, needs_rebuild: true, ..*old(self) }),
    {
        self.needs_layout = true;
        self.needs_rebuild = true;
    }

    /// Install the section the host laid out for the current document,
    /// answering a pending `needs_layout`.
    pub fn set_section(&mut self, section: Section)
        requires
            old(self).wf_base(),
            section.wf(),
            section_matches_document(section, old(self).document),
        ensures
            *final(self) == (TextView {
                section,
                needs_layout: false,
                needs_rebuild: true,
                ..*old(self)
            }),
            final(self).wf(),
    {
        self.section = section;
        self.needs_layout = false;
        self.needs_rebuild = true;
    }

    /// The size recorded for an inline image, as the layout engine
    /// queries it while measuring the text.
    pub fn get_image_size(&self, image_id: u32) -> (r: Option<(u32, u32)>)
        ensures
            match r {
                Some(wh) => self.images@.contains_key(image_id) && wh == (
                    self.images@[image_id].width,
                    self.images@[image_id].height,
                ),
                None => !self.images@.contains_key(image_id),
            },
    {
        match self.images.get(&image_id) {
            Some(info) => Some((info.width, info.height)),
            None => None,
        }
    }

    /// Record an image's size, keeping any pixel data already supplied;
    /// the layout depends on image sizes, so the text must be laid out
    /// again.
    pub fn set_image_size(&mut self, id: ImageId, width: u32, height: u32)
        ensures
            final(self).images@ =~= old(self).images@.insert(
                id.0,
                final(self).images@[id.0],
            ),
            final(self).images@[id.0].width == width,
            final(self).images@[id.0].height == height,
            old(self).images@.contains_key(id.0) ==> final(self).images@[id.0].data
                == old(self).images@[id.0].data,
            !old(self).images@.contains_key(id.0) ==> final(self).images@[id.0].data@
                == Seq::<u8>::empty(),
            final(self).needs_layout,
            final(self).needs_rebuild,
            *final(self) == (TextView {
                images: final(self).images,
                needs_layout: true,
                needs_rebuild: true,
                ..*old(self)
            }),
    {
        let key = id.0;
        let data = match self.images.remove(&key) {
            Some(info) => info.data,
            None => Vec::new(),
        };
        self.images.insert(key, ImageInfo { width, height, data });
        self.layout();
    }

    /// Replace an image's pixel data, keeping its recorded size; an entry
    /// never seen before is created empty. The scene must be rebuilt.
    pub fn set_image_data(&mut self, id: ImageId, data: Vec<u8>)
        ensures
            final(self).images@ =~= old(self).images@.insert(
                id.0,
                final(self).images@[id.0],
            ),
            old(self).images@.contains_key(id.0) ==> final(self).images@[id.0] == (ImageInfo {
                width: old(self).images@[id.0].width,
                height: old(self).images@[id.0].height,
                data,
            }),
            !old(self).images@.contains_key(id.0) ==> {
                &&& final(self).images@[id.0].width == 0
                &&& final(self).images@[id.0].height == 0
                &&& final(self).images@[id.0].data@ == Seq::<u8>::empty()
            },
            final(self).needs_rebuild,
            *final(self) == (TextView {
                images: final(self).images,
                needs_rebuild: true,
                ..*old(self)
            }),
    {
        let key = id.0;
        match self.images.remove(&key) {
            Some(info) => {
                self.images.insert(
                    key,
                    ImageInfo { width: info.width, height: info.height, data },
                );
            },
            None => {
                self.images.insert(key, ImageInfo { width: 0, height: 0, data: Vec::new() });
            },
        }
        self.needs_rebuild = true;
    }

    /// Whether the data recorded for an image is complete enough to hand
    /// to a renderer: present, sized, and nonempty.
    pub fn image_ready_for_upload(&self, image_id: u32) -> (r: bool)
        ensures
            r == (self.images@.contains_key(image_id) && self.images@[image_id].data@.len() > 0
                && self.images@[image_id].width > 0 && self.images@[image_id].height > 0),
    {
        match self.images.get(&image_id) {
            Some(info) => info.data.len() > 0 && info.width > 0 && info.height > 0,
            None => false,
        }
    }

    /// The cursor shows `Pointer` exactly where a mouse-down would record
    /// a link: a run has a link attribute somewhere in its stack if and
    /// only if its last link attribute exists.
    pub proof fn lemma_cursor_pointer_iff_link(self, p: Point)
        requires
            self.wf(),
        ensures
            self.spec_mouse_cursor(p) == MouseCursor::Pointer <==> self.spec_link_under(p)
                is Some,
    {
        if self.spec_hit_test_point(p) is Some {
            let h = self.spec_hit_test_point(p)->Some_0;
            let line = self.section.frames@[h.frame_index as int].lines@[h.line_index as int];
            if line.spec_char_index_for_position(h.point) is Some {
                let ci = line.spec_char_index_for_position(h.point)->Some_0;
                if line.spec_run_index_for_char(ci) is Some {
                    let ri = line.spec_run_index_for_char(ci)->Some_0;
                    Run::lemma_last_link_has(line.runs@[ri as int].formatting@);
                }
            }
        }
    }

    /// A character hit always lands inside the document: its paragraph
    /// exists and its character index lies before the paragraph's end.
    pub proof fn lemma_char_hit_in_document(self, p: Point)
        requires
            self.wf(),
        ensures
            self.spec_char_hit(p) matches Some(loc) ==> {
                &&& loc.paragraph_index < self.document.paragraphs@.len()
                &&& loc.character_index < self.document.paragraphs@[
                loc.paragraph_index as int].spec_char_len()
            },
    {
        if self.spec_char_hit(p) is Some {
            let c = self.transform.spec_inverse_transform_point(p)->Some_0;
            assert(vstd::std_specs::vec::spec_vec_len(&self.section.frames)
                == self.section.frames@.len());
            self.section.lemma_frame_index_props(c, 0);
            let h = self.spec_hit_test_point(p)->Some_0;
            let frame = self.section.frames@[h.frame_index as int];
            assert(vstd::std_specs::vec::spec_vec_len(&frame.lines) == frame.lines@.len());
            frame.lemma_line_index_props(c, 0);
            let line = frame.lines@[h.line_index as int];
            line.lemma_char_index_bounds(c, 0);
        }
    }

    /// A double click selects exactly the enclosing word: the selection
    /// the click makes is that word's range, containing the clicked
    /// character, with both endpoints on word boundaries.
    pub proof fn lemma_double_click_selects_word(self, p: Point)
        requires
            self.wf(),
        ensures
            self.spec_char_hit(p) matches Some(loc) ==> {
                let s = self.spec_down_selection(p, MouseEventKind::LeftDouble);
                &&& s == Some(self.spec_word_selection(loc))
                &&& s->Some_0.range.start.paragraph_index == loc.paragraph_index
                &&& s->Some_0.range.end.paragraph_index == loc.paragraph_index
                &&& s->Some_0.range.start.character_index <= loc.character_index
                    < s->Some_0.range.end.character_index
                &&& loc_word_aligned(self.document, s->Some_0.range.start)
                &&& loc_word_aligned(self.document, s->Some_0.range.end)
            },
    {
        if self.spec_char_hit(p) is Some {
            let loc = self.spec_char_hit(p)->Some_0;
            self.lemma_char_hit_in_document(p);
            let para = self.document.paragraphs@[loc.paragraph_index as int];
            para.lemma_word_range_at_props(loc.character_index);
        }
    }

    /// Word granularity never splits a word: when the gesture began with
    /// a double click and both selection endpoints lie on word
    /// boundaries, they still do after any drag step.
    pub proof fn lemma_drag_preserves_word_alignment(self, p: Point)
        requires
            self.wf(),
            self.mouse_status.is_double(),
            self.selection matches Some(s) ==> loc_word_aligned(self.document, s.range.start)
                && loc_word_aligned(self.document, s.range.end),
            self.selection is Some,
        ensures
            self.spec_drag_selection(p) matches Some(s2) ==> loc_word_aligned(
                self.document,
                s2.range.start,
            ) && loc_word_aligned(self.document, s2.range.end),
    {
        if self.spec_char_hit(p) is Some {
            let loc = self.spec_char_hit(p)->Some_0;
            self.lemma_char_hit_in_document(p);
            let para = self.document.paragraphs@[loc.paragraph_index as int];
            para.lemma_word_range_at_props(loc.character_index);
        }
    }

    /// Whether the host must lay the text out again.
    pub fn needs_layout(&self) -> (r: bool)
        ensures
            r == self.needs_layout,
    {
        self.needs_layout
    }

    /// Whether a scene rebuild is pending, clearing the request: the host
    /// calls this after every event and, on `true`, regenerates its scene
    /// from the current state.
    pub fn take_needs_rebuild(&mut self) -> (r: bool)
        ensures
            r == old(self).needs_rebuild,
            *final(self) == (TextView { needs_rebuild: false, ..*old(self) }),
    {
        let r = self.needs_rebuild;
        self.needs_rebuild = false;
        r
    }
}

} // verus!
