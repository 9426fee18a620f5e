//! Resolution of a run's formatting stack into one computed style.
//!
//! Formatting attributes apply innermost-last, so the stack is walked in
//! reverse and the first attribute seen wins each property. A link
//! attribute additionally forces an underline and, where no color was set
//! yet, the link color — the active-link color when the link is the one
//! currently pressed.

use vstd::prelude::*;
use crate::layout::{FontSel, Format};
use crate::text::{Color, ImageId, LinkId};

verus! {

pub open spec fn spec_default_selection_background_color() -> Color {
    Color { r: 191, g: 191, b: 191, a: 255 }
}

/// The background color a selection is drawn with until the host sets one.
pub fn default_selection_background_color() -> (c: Color)
    ensures
        c == spec_default_selection_background_color(),
{
    Color { r: 191, g: 191, b: 191, a: 255 }
}

pub open spec fn spec_default_link_color() -> Color {
    Color { r: 0, g: 0, b: 255, a: 255 }
}

/// The color a hyperlink is drawn with.
pub fn default_link_color() -> (c: Color)
    ensures
        c == spec_default_link_color(),
{
    Color { r: 0, g: 0, b: 255, a: 255 }
}

pub open spec fn spec_default_link_active_color() -> Color {
    Color { r: 255, g: 0, b: 0, a: 255 }
}

/// The color the currently pressed hyperlink is drawn with.
pub fn default_link_active_color() -> (c: Color)
    ensures
        c == spec_default_link_active_color(),
{
    Color { r: 255, g: 0, b: 0, a: 255 }
}

/// The color a link with the given id takes: the active color when it is
/// the pressed one, the plain link color otherwise.
pub open spec fn spec_link_color(active_link_id: Option<LinkId>, id: u32) -> Color {
    if active_link_id == Some(LinkId(id)) {
        spec_default_link_active_color()
    } else {
        spec_default_link_color()
    }
}

/// The style a run is drawn with, resolved from its formatting stack.
#[derive(Clone, Copy, PartialEq, Eq, Structural, Debug)]
pub struct ComputedStyle {
    pub font: Option<FontSel>,
    pub color: Option<Color>,
    pub image: Option<ImageId>,
    pub underline: bool,
}

impl ComputedStyle {
    /// The style before any attribute has been applied.
    pub open spec fn spec_empty() -> ComputedStyle {
        ComputedStyle { font: None, color: None, image: None, underline: false }
    }

    /// One formatting attribute applied to a partially resolved style:
    /// each property is taken only if none was seen yet.
    pub open spec fn spec_apply(
        self,
        format: Format,
        active_link_id: Option<LinkId>,
    ) -> ComputedStyle {
        let s = self;
        let s = if format.font is Some && s.font is None {
            ComputedStyle { font: format.font, ..s }
        } else {
            s
        };
        let s = if format.color is Some && s.color is None {
            ComputedStyle { color: format.color, ..s }
        } else {
            s
        };
        let s = if format.link is Some {
            ComputedStyle {
                underline: true,
                color: if s.color is None {
                    Some(spec_link_color(active_link_id, format.link->Some_0.id))
                } else {
                    s.color
                },
                ..s
            }
        } else {
            s
        };
        let s = if format.image is Some && s.image is None {
            ComputedStyle { image: format.image, ..s }
        } else {
            s
        };
        s
    }

    /// The style after applying the stack from its last attribute down to
    /// its first, continuing from `acc`.
    pub open spec fn spec_resolve_from(
        formats: Seq<Format>,
        active_link_id: Option<LinkId>,
        acc: ComputedStyle,
    ) -> ComputedStyle
        decreases formats.len(),
    {
        if formats.len() == 0 {
            acc
        } else {
            ComputedStyle::spec_resolve_from(
                formats.drop_last(),
                active_link_id,
                acc.spec_apply(formats.last(), active_link_id),
            )
        }
    }

    /// The fully resolved style of a formatting stack.
    pub open spec fn spec_from_formatting(
        formats: Seq<Format>,
        active_link_id: Option<LinkId>,
    ) -> ComputedStyle {
        ComputedStyle::spec_resolve_from(formats, active_link_id, ComputedStyle::spec_empty())
    }

    /// Resolve a formatting stack: walk it in reverse, first attribute
    /// seen wins each property; a link underlines and colors the run.
    pub fn from_formatting(formatting: &Vec<Format>, active_link_id: &Option<LinkId>) -> (r:
        ComputedStyle)
        ensures
            r == ComputedStyle::spec_from_formatting(formatting@, *active_link_id),
    {
        let mut style = ComputedStyle { font: None, color: None, image: None, underline: false };
        let mut i: usize = formatting.len();
        proof {
            assert(formatting@.subrange(0, i as int) =~= formatting@);
        }
        while i > 0
            invariant
                i <= formatting@.len(),
                ComputedStyle::spec_from_formatting(formatting@, *active_link_id)
                    == ComputedStyle::spec_resolve_from(formatting@.subrange(0, i as int),
                    *active_link_id, style),
            decreases i,
        {
            let ghost pre = formatting@.subrange(0, i as int);
            i = i - 1;
            style = apply_format(style, &formatting[i], active_link_id);
            proof {
                assert(pre.drop_last() =~= formatting@.subrange(0, i as int));
                assert(pre.last() == formatting@[i as int]);
            }
        }
        proof {
            assert(formatting@.subrange(0, 0) =~= Seq::<Format>::empty());
        }
        style
    }
}

/// Apply one formatting attribute to a partially resolved style.
fn apply_format(style: ComputedStyle, format: &Format, active_link_id: &Option<LinkId>) -> (r:
    ComputedStyle)
    ensures
        r == style.spec_apply(*format, *active_link_id),
{
    let mut s = style;
    if format.font.is_some() && s.font.is_none() {
        s.font = format.font;
    }
    if format.color.is_some() && s.color.is_none() {
        s.color = format.color;
    }
    if let Some(lk) = &format.link {
        s.underline = true;
        if s.color.is_none() {
            s.color = Some(link_color(active_link_id, lk.id));
        }
    }
    if format.image.is_some() && s.image.is_none() {
        s.image = format.image;
    }
    s
}

/// The color a link with the given id takes under the given active link.
fn link_color(active_link_id: &Option<LinkId>, id: u32) -> (c: Color)
    ensures
        c == spec_link_color(*active_link_id, id),
{
    match active_link_id {
        Some(active) if active.0 == id => default_link_active_color(),
        _ => default_link_color(),
    }
}

} // verus!
