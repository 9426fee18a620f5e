use text_view::{
    CharRange, Document, EventResult, FontSel, Format, Frame, Line, MouseEventKind, MouseStatus,
    Paragraph, ParagraphStyle, Point, Run, Section, SelectionDirection, TextLocation, TextView,
};

fn font_format() -> Format {
    Format { font: Some(FontSel { face_id: 1, font_id: 1 }), color: None, link: None, image: None }
}

fn positions(n: usize) -> Vec<i64> {
    (0..=n).map(|i| (i as i64) * 10).collect()
}

fn one_line_frame(origin_y: i64, char_len: usize) -> Frame {
    Frame {
        origin_x: 0,
        origin_y,
        width: (char_len as i64) * 10,
        height: 20,
        char_len,
        style: ParagraphStyle::Plain,
        lines: vec![Line {
            origin_x: 0,
            origin_y: origin_y + 10,
            width: (char_len as i64) * 10,
            ascent: 10,
            descent: 5,
            char_range: CharRange { start: 0, end: char_len },
            char_positions: positions(char_len),
            runs: vec![Run {
                char_range: CharRange { start: 0, end: char_len },
                formatting: vec![font_format()],
            }],
        }],
    }
}

fn fixture() -> TextView {
    let document = Document {
        paragraphs: vec![
            Paragraph { text: String::from("hello world"), word_breaks: vec![0, 5, 6, 11] },
            Paragraph { text: String::from("link here"), word_breaks: vec![0, 4, 5, 9] },
        ],
    };
    let section = Section { frames: vec![one_line_frame(0, 11), one_line_frame(20, 9)] };
    assert!(document.check_wf());
    assert!(section.check_wf());
    assert!(text_view::check_section_matches_document(&section, &document));
    TextView::new(document, section, 800, 600, 110)
}

/// Device point of character `k` on the first line.
fn at(k: usize) -> Point {
    Point { x: (k as i64) * 10 + 5, y: 5 }
}

#[test]
fn double_click_selects_the_word_hello() {
    let mut view = fixture();
    view.mouse_down(&at(2), MouseEventKind::LeftDouble);
    let sel = view.selection.expect("double click selects");
    assert_eq!(sel.range.start, TextLocation { paragraph_index: 0, character_index: 0 });
    assert_eq!(sel.range.end, TextLocation { paragraph_index: 0, character_index: 5 });
    assert_eq!(sel.direction, SelectionDirection::Forward);
    assert_eq!(view.mouse_status, MouseStatus::LeftDouble);
    assert_eq!(view.copy_selected_text(), Some(String::from("hello")));
}

#[test]
fn triple_click_selects_the_whole_paragraph() {
    let mut view = fixture();
    view.mouse_down(&at(2), MouseEventKind::LeftTriple);
    let sel = view.selection.expect("triple click selects");
    assert_eq!(sel.range.start, TextLocation { paragraph_index: 0, character_index: 0 });
    assert_eq!(sel.range.end, TextLocation { paragraph_index: 0, character_index: 11 });
    assert_eq!(view.copy_selected_text(), Some(String::from("hello world")));
}

#[test]
fn bare_click_and_release_selects_nothing() {
    let mut view = fixture();
    view.mouse_down(&at(2), MouseEventKind::Left);
    assert!(view.selection.is_none());
    let result = view.mouse_up(&at(2), MouseEventKind::Left);
    assert_eq!(result, EventResult::Nothing);
    assert!(view.selection.is_none());
    assert_eq!(view.mouse_status, MouseStatus::Up);
}

#[test]
fn single_click_clears_an_existing_selection() {
    let mut view = fixture();
    view.mouse_down(&at(2), MouseEventKind::LeftDouble);
    assert!(view.selection.is_some());
    view.mouse_up(&at(2), MouseEventKind::LeftDouble);
    assert!(view.selection.is_some());
    view.mouse_down(&at(8), MouseEventKind::Left);
    assert!(view.selection.is_none());
}

#[test]
fn click_outside_the_text_deselects() {
    let mut view = fixture();
    view.mouse_down(&at(2), MouseEventKind::LeftDouble);
    assert!(view.selection.is_some());
    view.mouse_up(&at(2), MouseEventKind::LeftDouble);
    view.mouse_down(&Point { x: 50, y: 200 }, MouseEventKind::Left);
    assert!(view.selection.is_none());
}

#[test]
fn drag_creates_then_extends_a_selection() {
    let mut view = fixture();
    view.mouse_down(&at(2), MouseEventKind::Left);
    view.mouse_dragged(&at(2));
    let sel = view.selection.expect("drag anchors a selection");
    assert_eq!(sel.range.start, TextLocation { paragraph_index: 0, character_index: 2 });
    assert_eq!(sel.range.end, TextLocation { paragraph_index: 0, character_index: 2 });
    assert_eq!(view.mouse_status, MouseStatus::LeftDragSingle);
    view.mouse_dragged(&at(7));
    let sel = view.selection.unwrap();
    assert_eq!(sel.range.start, TextLocation { paragraph_index: 0, character_index: 2 });
    assert_eq!(sel.range.end, TextLocation { paragraph_index: 0, character_index: 7 });
    assert_eq!(sel.direction, SelectionDirection::Forward);
}

#[test]
fn drag_before_the_anchor_flips_direction_and_keeps_order() {
    let mut view = fixture();
    view.mouse_down(&at(6), MouseEventKind::Left);
    view.mouse_dragged(&at(6));
    view.mouse_dragged(&at(2));
    let sel = view.selection.expect("selection survives the flip");
    assert_eq!(sel.direction, SelectionDirection::Backward);
    assert_eq!(sel.range.start, TextLocation { paragraph_index: 0, character_index: 2 });
    assert_eq!(sel.range.end, TextLocation { paragraph_index: 0, character_index: 6 });
}

#[test]
fn every_drag_step_keeps_start_at_or_before_end() {
    let mut view = fixture();
    view.mouse_down(&at(4), MouseEventKind::Left);
    let stops = [4usize, 9, 1, 0, 10, 3, 3, 8];
    for &k in stops.iter() {
        view.mouse_dragged(&at(k));
        let sel = view.selection.expect("drag keeps a selection");
        let s = sel.range.start;
        let e = sel.range.end;
        assert!(
            s.paragraph_index < e.paragraph_index
                || (s.paragraph_index == e.paragraph_index
                    && s.character_index <= e.character_index)
        );
    }
}

#[test]
fn word_drag_snaps_both_ends_to_word_boundaries() {
    let mut view = fixture();
    view.mouse_down(&at(2), MouseEventKind::LeftDouble);
    // Drag from inside "hello" into "world": both words whole.
    view.mouse_dragged(&at(8));
    let sel = view.selection.unwrap();
    assert_eq!(sel.range.start, TextLocation { paragraph_index: 0, character_index: 0 });
    assert_eq!(sel.range.end, TextLocation { paragraph_index: 0, character_index: 11 });
    assert_eq!(view.mouse_status, MouseStatus::LeftDragDouble);
    // Drag back inside "hello": still whole words.
    view.mouse_dragged(&at(3));
    let sel = view.selection.unwrap();
    assert_eq!(sel.range.start, TextLocation { paragraph_index: 0, character_index: 0 });
    assert_eq!(sel.range.end, TextLocation { paragraph_index: 0, character_index: 5 });
    assert_eq!(view.copy_selected_text(), Some(String::from("hello")));
}

#[test]
fn word_drag_backwards_flips_and_keeps_whole_words() {
    let mut view = fixture();
    // Double click inside "world", then drag back into "hello": the
    // selection collapses onto its old start and grows backward, both
    // endpoints staying on word boundaries.
    view.mouse_down(&at(8), MouseEventKind::LeftDouble);
    view.mouse_dragged(&at(2));
    let sel = view.selection.unwrap();
    assert_eq!(sel.direction, SelectionDirection::Backward);
    assert_eq!(sel.range.start, TextLocation { paragraph_index: 0, character_index: 0 });
    assert_eq!(sel.range.end, TextLocation { paragraph_index: 0, character_index: 6 });
}

#[test]
fn double_click_on_the_space_selects_just_the_space() {
    let mut view = fixture();
    view.mouse_down(&at(5), MouseEventKind::LeftDouble);
    let sel = view.selection.unwrap();
    assert_eq!(sel.range.start, TextLocation { paragraph_index: 0, character_index: 5 });
    assert_eq!(sel.range.end, TextLocation { paragraph_index: 0, character_index: 6 });
    assert_eq!(view.copy_selected_text(), Some(String::from(" ")));
}

#[test]
fn paragraph_drag_snaps_to_paragraph_boundaries() {
    let mut view = fixture();
    view.mouse_down(&at(2), MouseEventKind::LeftTriple);
    view.mouse_dragged(&Point { x: 15, y: 25 });
    let sel = view.selection.unwrap();
    assert_eq!(sel.range.start, TextLocation { paragraph_index: 0, character_index: 0 });
    assert_eq!(sel.range.end, TextLocation { paragraph_index: 1, character_index: 9 });
    assert_eq!(view.mouse_status, MouseStatus::LeftDragTriple);
}

#[test]
fn drag_outside_the_text_leaves_selection_unchanged() {
    let mut view = fixture();
    view.mouse_down(&at(2), MouseEventKind::LeftDouble);
    let before = view.selection;
    view.mouse_dragged(&Point { x: 50, y: 200 });
    assert_eq!(view.selection, before);
    assert_eq!(view.mouse_status, MouseStatus::LeftDragDouble);
}

#[test]
fn select_all_spans_the_whole_document() {
    let mut view = fixture();
    view.select_all();
    let sel = view.selection.unwrap();
    assert_eq!(sel.range.start, TextLocation { paragraph_index: 0, character_index: 0 });
    assert_eq!(sel.range.end, TextLocation { paragraph_index: 1, character_index: 9 });
    assert_eq!(
        view.copy_selected_text(),
        Some(String::from("hello world\nlink here"))
    );
}

#[test]
fn copy_spans_paragraphs_with_a_newline() {
    let mut view = fixture();
    view.mouse_down(&at(6), MouseEventKind::Left);
    view.mouse_dragged(&at(6));
    view.mouse_dragged(&Point { x: 45, y: 25 });
    let sel = view.selection.unwrap();
    assert_eq!(sel.range.start, TextLocation { paragraph_index: 0, character_index: 6 });
    assert_eq!(sel.range.end, TextLocation { paragraph_index: 1, character_index: 4 });
    assert_eq!(view.copy_selected_text(), Some(String::from("world\nlink")));
}

#[test]
fn copy_without_selection_is_nothing() {
    let view = fixture();
    assert_eq!(view.copy_selected_text(), None);
}

#[test]
fn select_all_on_empty_document_is_zero_width() {
    let document = Document { paragraphs: vec![] };
    let section = Section { frames: vec![] };
    assert!(document.check_wf());
    assert!(section.check_wf());
    let mut view = TextView::new(document, section, 100, 100, 100);
    view.select_all();
    let sel = view.selection.unwrap();
    assert_eq!(sel.range.start, TextLocation { paragraph_index: 0, character_index: 0 });
    assert_eq!(sel.range.end, TextLocation { paragraph_index: 0, character_index: 0 });
    assert_eq!(view.copy_selected_text(), Some(String::new()));
}
