//! A text-view interaction model: mouse hit-testing, selection tracking,
//! link activation and scene-rebuild bookkeeping over laid-out text.
//!
//! The view translates pointer coordinates through a pan/zoom transform,
//! locates character positions inside a laid-out section of text, and
//! maintains a directional selection range across mouse-down/drag/up
//! sequences, including word and paragraph multi-click extension.

pub mod geom;
pub mod layout;
pub mod notify;
pub mod scene;
pub mod style;
pub mod text;
pub mod view;

pub use geom::{ContentPoint, Point, Rect, Transform, COORD_LIMIT, SCALE_LIMIT};
pub use layout::{
    check_section_matches_document, section_matches_document, Document, FontSel, Format, Frame,
    Line, Link, Paragraph, ParagraphStyle, Run, Section,
};
pub use notify::Notifier;
pub use scene::{
    frame_decoration, selection_rect_for_line, text_item_for_run, DisplayItem, SceneBuilder,
};
pub use style::{
    default_link_active_color, default_link_color, default_selection_background_color,
    ComputedStyle,
};
pub use text::{
    CharRange, Color, EventResult, ImageId, LinkId, MouseCursor, MouseEventKind, MouseStatus,
    Selection, SelectionDirection, TextLocation, TextRange,
};
pub use view::{HitTestResult, ImageInfo, TextView};
