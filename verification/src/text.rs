//! Text positions, ranges and the selection state they form.
//!
//! A `TextLocation` names a character inside a particular paragraph and is
//! ordered lexicographically by `(paragraph_index, character_index)`. A
//! `Selection` keeps an ordered range of locations together with the
//! direction of the drag that is extending it.

use vstd::prelude::*;

verus! {

/// A character position: paragraph (frame) index and character index
/// within that paragraph. Ordered lexicographically.
#[derive(Clone, Copy, PartialEq, Eq, Structural, Debug)]
pub struct TextLocation {
    pub paragraph_index: usize,
    pub character_index: usize,
}

impl TextLocation {
    pub fn new(paragraph_index: usize, character_index: usize) -> (r: TextLocation)
        ensures
            r == (TextLocation { paragraph_index, character_index }),
    {
        TextLocation { paragraph_index, character_index }
    }

    /// The first position of a document.
    pub fn beginning() -> (r: TextLocation)
        ensures
            r == (TextLocation { paragraph_index: 0, character_index: 0 }),
    {
        TextLocation { paragraph_index: 0, character_index: 0 }
    }

    /// Lexicographic order: earlier paragraph, or same paragraph and
    /// earlier character.
    pub open spec fn spec_lt(self, other: TextLocation) -> bool {
        ||| self.paragraph_index < other.paragraph_index
        ||| (self.paragraph_index == other.paragraph_index
            && self.character_index < other.character_index)
    }

    pub open spec fn spec_le(self, other: TextLocation) -> bool {
        self.spec_lt(other) || self == other
    }

    pub fn lt(&self, other: &TextLocation) -> (r: bool)
        ensures
            r == self.spec_lt(*other),
    {
        self.paragraph_index < other.paragraph_index || (self.paragraph_index
            == other.paragraph_index && self.character_index < other.character_index)
    }

    pub fn le(&self, other: &TextLocation) -> (r: bool)
        ensures
            r == self.spec_le(*other),
    {
        self.paragraph_index < other.paragraph_index || (self.paragraph_index
            == other.paragraph_index && self.character_index <= other.character_index)
    }
}

/// A half-open range of character indices within one paragraph.
#[derive(Clone, Copy, PartialEq, Eq, Structural, Debug)]
pub struct CharRange {
    pub start: usize,
    pub end: usize,
}

impl CharRange {
    pub open spec fn spec_has(self, index: usize) -> bool {
        self.start <= index < self.end
    }

    /// Whether `index` lies in the range.
    pub fn has(&self, index: usize) -> (r: bool)
        ensures
            r == self.spec_has(index),
    {
        self.start <= index && index < self.end
    }

    pub open spec fn spec_intersect(self, other: CharRange) -> CharRange {
        CharRange {
            start: if self.start >= other.start {
                self.start
            } else {
                other.start
            },
            end: if self.end <= other.end {
                self.end
            } else {
                other.end
            },
        }
    }

    /// The overlap of two ranges; degenerate (start past end) when they are
    /// disjoint.
    pub fn intersect(&self, other: &CharRange) -> (r: CharRange)
        ensures
            r == self.spec_intersect(*other),
    {
        CharRange {
            start: if self.start >= other.start {
                self.start
            } else {
                other.start
            },
            end: if self.end <= other.end {
                self.end
            } else {
                other.end
            },
        }
    }
}

/// A range of text between two locations, `start` before or at `end` in
/// document order whenever it belongs to a well-formed selection.
#[derive(Clone, Copy, PartialEq, Eq, Structural, Debug)]
pub struct TextRange {
    pub start: TextLocation,
    pub end: TextLocation,
}

impl TextRange {
    pub open spec fn spec_char_range_for_paragraph(
        self,
        paragraph_index: usize,
        paragraph_char_len: usize,
    ) -> Option<CharRange> {
        if paragraph_index < self.start.paragraph_index || paragraph_index
            > self.end.paragraph_index {
            None
        } else {
            Some(
                CharRange {
                    start: if self.start.paragraph_index == paragraph_index {
                        self.start.character_index
                    } else {
                        0
                    },
                    end: if self.end.paragraph_index == paragraph_index {
                        self.end.character_index
                    } else {
                        paragraph_char_len
                    },
                },
            )
        }
    }

    /// The slice of this range that falls inside the given paragraph, as
    /// character indices of that paragraph; `None` when the range does not
    /// touch the paragraph at all.
    pub fn char_range_for_paragraph(
        &self,
        paragraph_index: usize,
        paragraph_char_len: usize,
    ) -> (r: Option<CharRange>)
        ensures
            r == self.spec_char_range_for_paragraph(paragraph_index, paragraph_char_len),
    {
        if paragraph_index < self.start.paragraph_index || paragraph_index
            > self.end.paragraph_index {
            return None;
        }
        let start = if self.start.paragraph_index == paragraph_index {
            self.start.character_index
        } else {
            0
        };
        let end = if self.end.paragraph_index == paragraph_index {
            self.end.character_index
        } else {
            paragraph_char_len
        };
        Some(CharRange { start, end })
    }
}

/// Which end of the selection moves while dragging: `Forward` extends the
/// end, `Backward` extends the start.
#[derive(Clone, Copy, PartialEq, Eq, Structural, Debug)]
pub enum SelectionDirection {
    Backward,
    Forward,
}

/// The current selection: an ordered range and the drag direction.
#[derive(Clone, Copy, PartialEq, Eq, Structural, Debug)]
pub struct Selection {
    pub range: TextRange,
    pub direction: SelectionDirection,
}

impl Selection {
    /// `range.start` never lies after `range.end` in document order,
    /// whatever the direction.
    pub open spec fn wf(self) -> bool {
        self.range.start.spec_le(self.range.end)
    }

    /// A forward selection over the given range.
    pub fn forward(range: TextRange) -> (r: Selection)
        ensures
            r == (Selection { range, direction: SelectionDirection::Forward }),
    {
        Selection { range, direction: SelectionDirection::Forward }
    }
}

/// The state of the current pointer gesture. Mouse-down records the click
/// kind, mouse-drag promotes it to its drag variant, mouse-up resets to
/// `Up`.
#[derive(Clone, Copy, PartialEq, Eq, Structural, Debug)]
pub enum MouseStatus {
    Up,
    LeftSingle,
    LeftDouble,
    LeftTriple,
    LeftDragSingle,
    LeftDragDouble,
    LeftDragTriple,
}

impl MouseStatus {
    /// Word granularity: the gesture began with a double click.
    pub open spec fn is_double(self) -> bool {
        self == MouseStatus::LeftDouble || self == MouseStatus::LeftDragDouble
    }

    /// Paragraph granularity: the gesture began with a triple click.
    pub open spec fn is_triple(self) -> bool {
        self == MouseStatus::LeftTriple || self == MouseStatus::LeftDragTriple
    }

    /// The status after a drag event: click states move to their drag
    /// variants, everything else stays.
    pub open spec fn spec_promoted(self) -> MouseStatus {
        match self {
            MouseStatus::LeftSingle => MouseStatus::LeftDragSingle,
            MouseStatus::LeftDouble => MouseStatus::LeftDragDouble,
            MouseStatus::LeftTriple => MouseStatus::LeftDragTriple,
            _ => self,
        }
    }
}

/// The click kind a mouse-down or mouse-up event carries.
#[derive(Clone, Copy, PartialEq, Eq, Structural, Debug)]
pub enum MouseEventKind {
    Left,
    LeftDouble,
    LeftTriple,
}

impl MouseEventKind {
    /// The gesture status a mouse-down with this kind records; `Up` is
    /// never recorded here.
    pub open spec fn spec_status_on_down(self) -> MouseStatus {
        match self {
            MouseEventKind::LeftDouble => MouseStatus::LeftDouble,
            MouseEventKind::LeftTriple => MouseStatus::LeftTriple,
            MouseEventKind::Left => MouseStatus::LeftSingle,
        }
    }
}

/// The cursor glyph to show for a pointer position.
#[derive(Clone, Copy, PartialEq, Eq, Structural, Debug)]
pub enum MouseCursor {
    Default,
    Text,
    Pointer,
}

/// What a mouse-up hands back to the host: nothing, or a hyperlink to open.
#[derive(Clone, PartialEq, Eq, Debug)]
pub enum EventResult {
    Nothing,
    OpenUrl(String),
}

/// An identifier a hyperlink formatting attribute carries.
#[derive(Clone, Copy, PartialEq, Eq, Structural, Hash, Debug)]
pub struct LinkId(pub u32);

/// An identifier an inline image formatting attribute carries.
#[derive(Clone, Copy, PartialEq, Eq, Structural, Hash, Debug)]
pub struct ImageId(pub u32);

/// A color with four 8-bit channels.
#[derive(Clone, Copy, PartialEq, Eq, Structural, Debug)]
pub struct Color {
    pub r: u8,
    pub g: u8,
    pub b: u8,
    pub a: u8,
}

impl Color {
    pub fn new(r: u8, g: u8, b: u8, a: u8) -> (c: Color)
        ensures
            c == (Color { r, g, b, a }),
    {
        Color { r, g, b, a }
    }
}

} // verus!
