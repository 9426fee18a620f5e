use text_view::{
    CharRange, Document, FontSel, Format, Frame, Line, Link, MouseCursor, Paragraph,
    ParagraphStyle, Point, Run, Section, TextView,
};

fn font_format() -> Format {
    Format { font: Some(FontSel { face_id: 1, font_id: 1 }), color: None, link: None, image: None }
}

fn link_format(id: u32, url: &str) -> Format {
    Format { font: None, color: None, link: Some(Link { id, url: String::from(url) }), image: None }
}

fn positions(n: usize) -> Vec<i64> {
    (0..=n).map(|i| (i as i64) * 10).collect()
}

fn fixture() -> TextView {
    let document = Document {
        paragraphs: vec![
            Paragraph { text: String::from("hello world"), word_breaks: vec![0, 5, 6, 11] },
            Paragraph { text: String::from("link here"), word_breaks: vec![0, 4, 5, 9] },
        ],
    };
    let section = Section {
        frames: vec![
            Frame {
                origin_x: 0,
                origin_y: 0,
                width: 110,
                height: 20,
                char_len: 11,
                style: ParagraphStyle::Plain,
                lines: vec![Line {
                    origin_x: 0,
                    origin_y: 10,
                    width: 110,
                    ascent: 10,
                    descent: 5,
                    char_range: CharRange { start: 0, end: 11 },
                    char_positions: positions(11),
                    runs: vec![Run {
                        char_range: CharRange { start: 0, end: 11 },
                        formatting: vec![font_format()],
                    }],
                }],
            },
            Frame {
                origin_x: 0,
                origin_y: 20,
                width: 90,
                height: 20,
                char_len: 9,
                style: ParagraphStyle::Plain,
                lines: vec![Line {
                    origin_x: 0,
                    origin_y: 30,
                    width: 90,
                    ascent: 10,
                    descent: 5,
                    char_range: CharRange { start: 0, end: 9 },
                    char_positions: positions(9),
                    runs: vec![
                        Run {
                            char_range: CharRange { start: 0, end: 4 },
                            formatting: vec![
                                font_format(),
                                link_format(7, "https://example.test/"),
                            ],
                        },
                        Run {
                            char_range: CharRange { start: 4, end: 9 },
                            formatting: vec![font_format()],
                        },
                    ],
                }],
            },
        ],
    };
    assert!(document.check_wf());
    assert!(section.check_wf());
    assert!(text_view::check_section_matches_document(&section, &document));
    TextView::new(document, section, 800, 600, 110)
}

#[test]
fn point_below_every_frame_misses() {
    let view = fixture();
    assert!(view.hit_test_point(&Point { x: 50, y: 100 }).is_none());
    assert!(view.hit_test_point(&Point { x: 50, y: -1 }).is_none());
    assert_eq!(view.get_mouse_cursor(&Point { x: 50, y: 100 }), MouseCursor::Default);
}

#[test]
fn point_in_frame_gap_between_lines_misses() {
    let view = fixture();
    // y = 16 lies in frame 0 (0..20) but past its line's descent (0..15).
    assert!(view.hit_test_point(&Point { x: 50, y: 16 }).is_none());
}

#[test]
fn point_on_first_line_hits_frame_and_line() {
    let view = fixture();
    let hit = view.hit_test_point(&Point { x: 25, y: 5 }).expect("inside line");
    assert_eq!(hit.frame_index, 0);
    assert_eq!(hit.line_index, 0);
}

#[test]
fn point_on_second_frame_hits_it() {
    let view = fixture();
    let hit = view.hit_test_point(&Point { x: 15, y: 25 }).expect("inside second frame");
    assert_eq!(hit.frame_index, 1);
}

#[test]
fn zero_scale_makes_every_point_miss() {
    let mut view = fixture();
    view.set_scale(0);
    assert!(view.hit_test_point(&Point { x: 25, y: 5 }).is_none());
    assert_eq!(view.get_mouse_cursor(&Point { x: 25, y: 5 }), MouseCursor::Default);
}

#[test]
fn cursor_is_text_over_plain_characters() {
    let view = fixture();
    assert_eq!(view.get_mouse_cursor(&Point { x: 25, y: 5 }), MouseCursor::Text);
}

#[test]
fn cursor_is_text_past_the_measured_characters() {
    let view = fixture();
    // x = 115 is past the last measured boundary of line 0 (110).
    assert_eq!(view.get_mouse_cursor(&Point { x: 115, y: 5 }), MouseCursor::Text);
}

#[test]
fn cursor_is_pointer_over_a_link() {
    let view = fixture();
    assert_eq!(view.get_mouse_cursor(&Point { x: 15, y: 25 }), MouseCursor::Pointer);
}

#[test]
fn panning_shifts_what_a_point_hits() {
    let mut view = fixture();
    // Scrolled down by 20 units: the viewport origin row now shows the
    // second frame.
    view.set_translation(0, 20);
    let hit = view.hit_test_point(&Point { x: 15, y: 5 }).expect("second frame under origin");
    assert_eq!(hit.frame_index, 1);
}

#[test]
fn zoom_scales_what_a_point_hits() {
    let mut view = fixture();
    view.set_scale(2);
    // Device (50, 10) is content (25, 5): character 2 of the first line.
    let hit = view.hit_test_point(&Point { x: 50, y: 10 }).expect("inside first line");
    assert_eq!(hit.frame_index, 0);
    assert_eq!(view.get_mouse_cursor(&Point { x: 50, y: 10 }), MouseCursor::Text);
}
