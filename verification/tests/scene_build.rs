use text_view::{
    default_link_active_color, default_link_color, CharRange, Color, ComputedStyle, DisplayItem,
    FontSel, Format, Frame, Line, Link, LinkId, ParagraphStyle, Rect, Run, SceneBuilder, Section,
    TextLocation, TextRange,
};

fn font_format() -> Format {
    Format { font: Some(FontSel { face_id: 1, font_id: 1 }), color: None, link: None, image: None }
}

fn color_format(c: Color) -> Format {
    Format { font: None, color: Some(c), link: None, image: None }
}

fn link_format(id: u32, url: &str) -> Format {
    Format { font: None, color: None, link: Some(Link { id, url: String::from(url) }), image: None }
}

fn positions(n: usize) -> Vec<i64> {
    (0..=n).map(|i| (i as i64) * 10).collect()
}

fn one_frame_section(style: ParagraphStyle) -> Section {
    Section {
        frames: vec![Frame {
            origin_x: 0,
            origin_y: 0,
            width: 110,
            height: 20,
            char_len: 11,
            style,
            lines: vec![Line {
                origin_x: 0,
                origin_y: 10,
                width: 110,
                ascent: 10,
                descent: 5,
                char_range: CharRange { start: 0, end: 11 },
                char_positions: positions(11),
                runs: vec![Run {
                    char_range: CharRange { start: 0, end: 11 },
                    formatting: vec![font_format()],
                }],
            }],
        }],
    }
}

fn gray() -> Color {
    Color { r: 191, g: 191, b: 191, a: 255 }
}

#[test]
fn scene_without_selection_has_only_text_runs() {
    let section = one_frame_section(ParagraphStyle::Plain);
    let mut builder = SceneBuilder::new(110, 15, None, None, gray());
    builder.build_display_list(&section);
    let items = builder.finalize();
    assert_eq!(items.len(), 1);
    match &items[0] {
        DisplayItem::TextRun { frame_index, line_index, run_index, style } => {
            assert_eq!((*frame_index, *line_index, *run_index), (0, 0, 0));
            assert_eq!(style.font, Some(FontSel { face_id: 1, font_id: 1 }));
            assert!(!style.underline);
        },
        other => panic!("expected a text run, got {:?}", other),
    }
}

#[test]
fn selection_paints_a_rect_measured_from_char_positions() {
    let section = one_frame_section(ParagraphStyle::Plain);
    let selection = TextRange {
        start: TextLocation { paragraph_index: 0, character_index: 0 },
        end: TextLocation { paragraph_index: 0, character_index: 5 },
    };
    let mut builder = SceneBuilder::new(110, 15, Some(selection), None, gray());
    builder.build_display_list(&section);
    let items = builder.finalize();
    assert_eq!(items.len(), 2);
    match &items[0] {
        DisplayItem::SelectionRect { rect, color } => {
            assert_eq!(*rect, Rect { x: 0, y: 0, width: 50, height: 15 });
            assert_eq!(*color, gray());
        },
        other => panic!("expected the selection rect first, got {:?}", other),
    }
}

#[test]
fn selection_in_another_paragraph_paints_nothing() {
    let section = one_frame_section(ParagraphStyle::Plain);
    let selection = TextRange {
        start: TextLocation { paragraph_index: 3, character_index: 0 },
        end: TextLocation { paragraph_index: 3, character_index: 5 },
    };
    let mut builder = SceneBuilder::new(110, 15, Some(selection), None, gray());
    builder.build_display_list(&section);
    let items = builder.finalize();
    assert_eq!(items.len(), 1);
    assert!(matches!(items[0], DisplayItem::TextRun { .. }));
}

#[test]
fn ruled_frame_gets_a_rule_along_its_bottom() {
    let section = one_frame_section(ParagraphStyle::Rule);
    let mut builder = SceneBuilder::new(110, 15, None, None, gray());
    builder.build_display_list(&section);
    let items = builder.finalize();
    assert_eq!(items.len(), 2);
    match &items[1] {
        DisplayItem::FrameRule { rect } => {
            assert_eq!(*rect, Rect { x: 0, y: 19, width: 110, height: 1 });
        },
        other => panic!("expected the rule last, got {:?}", other),
    }
}

#[test]
fn later_formatting_attribute_wins_the_color() {
    let red = Color { r: 255, g: 0, b: 0, a: 255 };
    let blue = Color { r: 0, g: 0, b: 255, a: 255 };
    let formatting = vec![color_format(red), color_format(blue)];
    let style = ComputedStyle::from_formatting(&formatting, &None);
    assert_eq!(style.color, Some(blue));
}

#[test]
fn a_link_underlines_and_colors_its_run() {
    let formatting = vec![font_format(), link_format(7, "https://example.test/")];
    let style = ComputedStyle::from_formatting(&formatting, &None);
    assert!(style.underline);
    assert_eq!(style.color, Some(default_link_color()));
}

#[test]
fn the_pressed_link_takes_the_active_color() {
    let formatting = vec![font_format(), link_format(7, "https://example.test/")];
    let style = ComputedStyle::from_formatting(&formatting, &Some(LinkId(7)));
    assert_eq!(style.color, Some(default_link_active_color()));
    let style = ComputedStyle::from_formatting(&formatting, &Some(LinkId(8)));
    assert_eq!(style.color, Some(default_link_color()));
}

#[test]
fn an_explicit_color_beats_the_link_color() {
    let green = Color { r: 0, g: 128, b: 0, a: 255 };
    let formatting = vec![link_format(7, "https://example.test/"), color_format(green)];
    let style = ComputedStyle::from_formatting(&formatting, &None);
    assert!(style.underline);
    assert_eq!(style.color, Some(green));
}

#[test]
fn runs_without_a_font_are_not_drawn() {
    let mut section = one_frame_section(ParagraphStyle::Plain);
    section.frames[0].lines[0].runs[0].formatting = vec![];
    let mut builder = SceneBuilder::new(110, 15, None, None, gray());
    builder.build_display_list(&section);
    assert_eq!(builder.finalize().len(), 0);
}
