use std::sync::mpsc;
use text_view::{
    CharRange, Document, FontSel, Format, Frame, ImageId, Line, MouseEventKind, Notifier,
    Paragraph, ParagraphStyle, Point, Run, Section, TextView,
};

fn font_format() -> Format {
    Format { font: Some(FontSel { face_id: 1, font_id: 1 }), color: None, link: None, image: None }
}

fn positions(n: usize) -> Vec<i64> {
    (0..=n).map(|i| (i as i64) * 10).collect()
}

fn small_section() -> Section {
    Section {
        frames: vec![Frame {
            origin_x: 0,
            origin_y: 0,
            width: 110,
            height: 20,
            char_len: 11,
            style: ParagraphStyle::Plain,
            lines: vec![Line {
                origin_x: 0,
                origin_y: 10,
                width: 110,
                ascent: 10,
                descent: 5,
                char_range: CharRange { start: 0, end: 11 },
                char_positions: positions(11),
                runs: vec![Run {
                    char_range: CharRange { start: 0, end: 11 },
                    formatting: vec![font_format()],
                }],
            }],
        }],
    }
}

fn small_document() -> Document {
    Document {
        paragraphs: vec![Paragraph {
            text: String::from("hello world"),
            word_breaks: vec![0, 5, 6, 11],
        }],
    }
}

fn fixture() -> TextView {
    let document = small_document();
    let section = small_section();
    assert!(document.check_wf());
    assert!(section.check_wf());
    assert!(text_view::check_section_matches_document(&section, &document));
    TextView::new(document, section, 800, 600, 110)
}

#[test]
fn a_new_view_requests_its_first_scene() {
    let mut view = fixture();
    assert!(view.selection.is_none());
    assert!(view.active_link_id.is_none());
    assert!(!view.needs_layout());
    assert!(view.take_needs_rebuild());
    assert!(!view.take_needs_rebuild());
}

#[test]
fn layout_size_reaches_the_last_line_descent() {
    let view = fixture();
    assert_eq!(view.layout_size(), (110, 15));
}

#[test]
fn layout_size_of_an_empty_section_is_flat() {
    let document = Document { paragraphs: vec![] };
    let section = Section { frames: vec![] };
    let view = TextView::new(document, section, 100, 100, 64);
    assert_eq!(view.layout_size(), (64, 0));
}

#[test]
fn width_change_requests_layout_and_rebuild() {
    let mut view = fixture();
    view.take_needs_rebuild();
    view.set_available_width(90);
    assert_eq!(view.available_width(), 90);
    assert!(view.needs_layout());
    assert!(view.take_needs_rebuild());
}

#[test]
fn document_change_flows_through_set_section() {
    let mut view = fixture();
    view.take_needs_rebuild();
    view.document_changed();
    assert!(view.needs_layout());
    view.set_section(small_section());
    assert!(!view.needs_layout());
    assert!(view.take_needs_rebuild());
}

#[test]
fn drag_always_requests_a_rebuild() {
    let mut view = fixture();
    view.take_needs_rebuild();
    view.mouse_down(&Point { x: 25, y: 5 }, MouseEventKind::Left);
    view.take_needs_rebuild();
    view.mouse_dragged(&Point { x: 500, y: 500 });
    assert!(view.take_needs_rebuild());
}

#[test]
fn repaint_params_report_pan_zoom_and_viewport() {
    let mut view = fixture();
    view.set_translation(30, 40);
    view.set_scale(2);
    view.set_viewport_size(1024, 768);
    assert_eq!(view.repaint_params(), (-30, -40, 2, 1024, 768));
}

#[test]
fn image_sizes_are_recorded_and_queried() {
    let mut view = fixture();
    assert_eq!(view.get_image_size(3), None);
    view.set_image_size(ImageId(3), 64, 32);
    assert_eq!(view.get_image_size(3), Some((64, 32)));
    assert!(view.needs_layout());
    assert!(!view.image_ready_for_upload(3));
    view.set_image_data(ImageId(3), vec![1, 2, 3, 4]);
    assert!(view.image_ready_for_upload(3));
    assert_eq!(view.get_image_size(3), Some((64, 32)));
}

#[test]
fn image_data_for_an_unknown_id_starts_an_empty_entry() {
    let mut view = fixture();
    view.set_image_data(ImageId(9), vec![1, 2, 3]);
    assert_eq!(view.get_image_size(9), Some((0, 0)));
    assert!(!view.image_ready_for_upload(9));
}

#[test]
fn corrupt_word_breaks_fail_the_document_check() {
    let document = Document {
        paragraphs: vec![Paragraph {
            text: String::from("hello world"),
            word_breaks: vec![0, 6, 5, 11],
        }],
    };
    assert!(!document.check_wf());
}

#[test]
fn word_breaks_must_end_at_the_character_count() {
    let document = Document {
        paragraphs: vec![Paragraph {
            text: String::from("hello world"),
            word_breaks: vec![0, 5, 6, 10],
        }],
    };
    assert!(!document.check_wf());
}

#[test]
fn mismatched_layout_fails_the_section_check() {
    let document = small_document();
    let mut section = small_section();
    section.frames[0].char_len = 7;
    assert!(!text_view::check_section_matches_document(&section, &document));
}

#[test]
fn notifier_signals_the_frame_ready_channel() {
    let (tx, rx) = mpsc::channel();
    let notifier = Notifier::new(tx);
    notifier.new_document_ready();
    assert_eq!(rx.try_recv(), Ok(()));
}

#[test]
fn editing_through_document_mut_then_relayout() {
    let mut view = fixture();
    view.document_mut().paragraphs[0] = Paragraph {
        text: String::from("hello world"),
        word_breaks: vec![0, 5, 6, 11],
    };
    view.document_changed();
    assert!(view.needs_layout());
    view.set_section(small_section());
    assert!(!view.needs_layout());
}
