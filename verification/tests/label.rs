use sounddeck::label::{layout_text, line_advance, PlacedLine, DEFAULT_TEXT_HEIGHT};

fn placed(lines: &[PlacedLine]) -> Vec<(String, u32)> {
    lines.iter().map(|l| (l.text.clone(), l.y)).collect()
}

#[test]
fn second_line_of_size_twenty_is_twenty_two_pixels_down() {
    let lines = layout_text("one\ntwo", Some(2000), 72);
    assert_eq!(placed(&lines), vec![("one".to_string(), 0), ("two".to_string(), 22)]);
    assert_eq!(lines[1].y - lines[0].y, 22);
}

#[test]
fn line_advance_is_the_rounded_tenth_more() {
    assert_eq!(line_advance(Some(2000)), 22);
    assert_eq!(line_advance(Some(1000)), 11);
    assert_eq!(line_advance(Some(1250)), 14);
    assert_eq!(line_advance(Some(1240)), 14);
    assert_eq!(line_advance(Some(1220)), 13);
    assert_eq!(line_advance(Some(0)), 0);
    assert_eq!(line_advance(Some(u32::MAX)), 47244640);
}

#[test]
fn default_size_is_fifteen_pixels() {
    assert_eq!(DEFAULT_TEXT_HEIGHT, 1500);
    assert_eq!(line_advance(None), 17);
    let lines = layout_text("a\nb\nc", None, 72);
    assert_eq!(placed(&lines), vec![("a".to_string(), 0), ("b".to_string(), 17), ("c".to_string(), 34)]);
}

#[test]
fn text_without_newline_is_one_line_at_the_top() {
    assert_eq!(placed(&layout_text("hello", Some(1500), 72)), vec![("hello".to_string(), 0)]);
    assert_eq!(placed(&layout_text("", Some(1500), 72)), vec![("".to_string(), 0)]);
}

#[test]
fn empty_lines_are_kept() {
    let lines = layout_text("a\n\nb\n", Some(1000), 72);
    assert_eq!(
        placed(&lines),
        vec![("a".to_string(), 0), ("".to_string(), 11), ("b".to_string(), 22), ("".to_string(), 33)]
    );
}

#[test]
fn lines_below_the_canvas_are_not_placed() {
    let lines = layout_text("a\nb\nc\nd\ne", Some(2000), 50);
    assert_eq!(placed(&lines), vec![("a".to_string(), 0), ("b".to_string(), 22), ("c".to_string(), 44)]);
    assert_eq!(layout_text("a\nb", Some(2000), 0).len(), 0);
    assert_eq!(layout_text("a\nb", Some(2000), 22).len(), 1);
    assert_eq!(layout_text("a\nb", Some(2000), 23).len(), 2);
}

#[test]
fn zero_advance_stacks_all_lines_at_the_top() {
    let lines = layout_text("a\nb\nc", Some(0), 10);
    assert_eq!(placed(&lines), vec![("a".to_string(), 0), ("b".to_string(), 0), ("c".to_string(), 0)]);
}

#[test]
fn lines_keep_characters_beyond_ascii() {
    let lines = layout_text("né\nü→", Some(1000), 72);
    assert_eq!(placed(&lines), vec![("né".to_string(), 0), ("ü→".to_string(), 11)]);
}
