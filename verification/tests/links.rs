use text_view::{
    CharRange, Document, EventResult, FontSel, Format, Frame, Line, Link, LinkId, MouseEventKind,
    MouseStatus, Paragraph, ParagraphStyle, Point, Run, Section, TextView,
};

const URL: &str = "https://example.test/";

fn font_format() -> Format {
    Format { font: Some(FontSel { face_id: 1, font_id: 1 }), color: None, link: None, image: None }
}

fn link_format(id: u32, url: &str) -> Format {
    Format { font: None, color: None, link: Some(Link { id, url: String::from(url) }), image: None }
}

fn positions(n: usize) -> Vec<i64> {
    (0..=n).map(|i| (i as i64) * 10).collect()
}

fn fixture() -> TextView {
    let document = Document {
        paragraphs: vec![Paragraph {
            text: String::from("link here"),
            word_breaks: vec![0, 4, 5, 9],
        }],
    };
    let section = Section {
        frames: vec![Frame {
            origin_x: 0,
            origin_y: 0,
            width: 90,
            height: 20,
            char_len: 9,
            style: ParagraphStyle::Plain,
            lines: vec![Line {
                origin_x: 0,
                origin_y: 10,
                width: 90,
                ascent: 10,
                descent: 5,
                char_range: CharRange { start: 0, end: 9 },
                char_positions: positions(9),
                runs: vec![
                    Run {
                        char_range: CharRange { start: 0, end: 4 },
                        formatting: vec![font_format(), link_format(7, URL)],
                    },
                    Run {
                        char_range: CharRange { start: 4, end: 9 },
                        formatting: vec![font_format()],
                    },
                ],
            }],
        }],
    };
    assert!(document.check_wf());
    assert!(section.check_wf());
    assert!(text_view::check_section_matches_document(&section, &document));
    TextView::new(document, section, 800, 600, 90)
}

fn at(k: usize) -> Point {
    Point { x: (k as i64) * 10 + 5, y: 5 }
}

#[test]
fn mouse_down_on_a_link_records_its_id() {
    let mut view = fixture();
    view.mouse_down(&at(1), MouseEventKind::Left);
    assert_eq!(view.active_link_id, Some(LinkId(7)));
}

#[test]
fn mouse_down_on_plain_text_records_no_link() {
    let mut view = fixture();
    view.mouse_down(&at(6), MouseEventKind::Left);
    assert_eq!(view.active_link_id, None);
}

#[test]
fn click_and_release_on_the_link_opens_its_exact_url() {
    let mut view = fixture();
    view.mouse_down(&at(1), MouseEventKind::Left);
    let result = view.mouse_up(&at(2), MouseEventKind::Left);
    assert_eq!(result, EventResult::OpenUrl(String::from(URL)));
    assert_eq!(view.active_link_id, None);
    assert_eq!(view.mouse_status, MouseStatus::Up);
}

#[test]
fn release_away_from_the_link_opens_nothing() {
    let mut view = fixture();
    view.mouse_down(&at(1), MouseEventKind::Left);
    let result = view.mouse_up(&at(6), MouseEventKind::Left);
    assert_eq!(result, EventResult::Nothing);
}

#[test]
fn release_outside_the_text_opens_nothing() {
    let mut view = fixture();
    view.mouse_down(&at(1), MouseEventKind::Left);
    let result = view.mouse_up(&Point { x: 15, y: 100 }, MouseEventKind::Left);
    assert_eq!(result, EventResult::Nothing);
}

#[test]
fn dragging_cancels_link_activation() {
    let mut view = fixture();
    view.mouse_down(&at(1), MouseEventKind::Left);
    assert_eq!(view.active_link_id, Some(LinkId(7)));
    view.mouse_dragged(&at(2));
    assert_eq!(view.active_link_id, None);
    let result = view.mouse_up(&at(1), MouseEventKind::Left);
    assert_eq!(result, EventResult::Nothing);
}

#[test]
fn release_on_link_without_press_opens_nothing() {
    let mut view = fixture();
    view.mouse_down(&at(6), MouseEventKind::Left);
    let result = view.mouse_up(&at(1), MouseEventKind::Left);
    assert_eq!(result, EventResult::Nothing);
}
