use charl::error::ErrorKind;
use charl::layout::{Behavior, Buffer, Cursor, DisplayOp, LineState, WrapPolicy, ROWS};
use charl::scroll::Animation;

fn demo_pairings() -> [(WrapPolicy, Behavior); 4] {
    [
        (WrapPolicy::Clip, Behavior::Static),
        (WrapPolicy::Overflow, Behavior::MarqueeJumpBack),
        (WrapPolicy::Overflow, Behavior::MarqueeContinuous),
        (WrapPolicy::Overflow, Behavior::MarqueeScrollBack),
    ]
}

fn row(ops: &[DisplayOp], width: usize, row: usize) -> (DisplayOp, String) {
    let start = row * (width + 1);
    let text = ops[start + 1..start + 1 + width]
        .iter()
        .map(|op| match op {
            DisplayOp::Write { byte } => *byte as char,
            DisplayOp::SetCursor { .. } => panic!("cursor moved within a row"),
        })
        .collect();
    (ops[start], text)
}

#[test]
fn a_new_buffer_has_four_empty_lines() {
    let buffer = Buffer::new(20, demo_pairings()).unwrap();
    assert_eq!(ROWS, 4);
    assert_eq!(buffer.width(), 20);
    assert_eq!(buffer.cursor(), Cursor { row: 0, col: 0 });
    assert_eq!(buffer.line1().state(), LineState::ClipStatic);
    assert_eq!(buffer.line2().state(), LineState::OverflowJumpBack);
    assert_eq!(buffer.line3().state(), LineState::OverflowContinuous);
    assert_eq!(buffer.line4().state(), LineState::OverflowScrollBack);
    for line in [buffer.line1(), buffer.line2(), buffer.line3(), buffer.line4()] {
        assert_eq!(line.width(), 20);
        assert!(line.content().is_empty());
        assert_eq!(line.animation(), Animation::initial());
    }
}

#[test]
fn an_illegal_pairing_aborts_the_buffer() {
    for bad in 0..4 {
        let mut pairings = demo_pairings();
        pairings[bad] = (WrapPolicy::Wrap, Behavior::MarqueeScrollBack);
        assert_eq!(Buffer::new(20, pairings).err(), Some(ErrorKind::InvalidLayoutCombination));
    }
}

#[test]
fn a_frame_writes_every_row_in_full_from_top_to_bottom() {
    let mut buffer = Buffer::new(5, demo_pairings()).unwrap();
    assert!(buffer.set_content(0, b"HELLO WORLD".to_vec()));
    assert!(buffer.set_content(1, b"HELLO WORLD".to_vec()));
    assert!(buffer.set_content(2, b"ABCDEF".to_vec()));
    assert!(buffer.set_content(3, b"HI".to_vec()));

    let first = buffer.refresh();
    assert_eq!(first.len(), 4 * 6);
    assert_eq!(row(&first, 5, 0), (DisplayOp::SetCursor { row: 0, col: 0 }, "HELLO".to_string()));
    assert_eq!(row(&first, 5, 1), (DisplayOp::SetCursor { row: 1, col: 0 }, "HELLO".to_string()));
    assert_eq!(row(&first, 5, 2), (DisplayOp::SetCursor { row: 2, col: 0 }, "ABCDE".to_string()));
    assert_eq!(row(&first, 5, 3), (DisplayOp::SetCursor { row: 3, col: 0 }, "HI   ".to_string()));
    assert_eq!(buffer.cursor(), Cursor { row: 3, col: 0 });

    let second = buffer.refresh();
    assert_eq!(row(&second, 5, 0).1, "HELLO");
    assert_eq!(row(&second, 5, 1).1, "ELLO ");
    assert_eq!(row(&second, 5, 2).1, "BCDEF");
    assert_eq!(row(&second, 5, 3).1, "HI   ");

    let third = buffer.refresh();
    assert_eq!(row(&third, 5, 2).1, "CDEF ");
    assert_eq!(buffer.line2().animation().offset, 3);
    assert_eq!(buffer.line1().animation(), Animation::initial());
    assert_eq!(buffer.line4().animation(), Animation::initial());
}

#[test]
fn a_shorter_text_leaves_nothing_of_the_longer_one() {
    let mut buffer = Buffer::new(8, demo_pairings()).unwrap();
    buffer.set_content(0, b"12345678".to_vec());
    assert_eq!(row(&buffer.refresh(), 8, 0).1, "12345678");
    buffer.set_content(0, b"abc".to_vec());
    assert_eq!(row(&buffer.refresh(), 8, 0).1, "abc     ");
}

#[test]
fn an_empty_buffer_writes_spaces() {
    let mut buffer = Buffer::new(1, demo_pairings()).unwrap();
    let ops = buffer.refresh();
    let mut expected = Vec::new();
    for row in 0..4 {
        expected.push(DisplayOp::SetCursor { row, col: 0 });
        expected.push(DisplayOp::Write { byte: b' ' });
    }
    assert_eq!(ops, expected);
}

#[test]
fn replacing_a_line_of_the_buffer_resets_only_that_line() {
    let mut buffer = Buffer::new(5, demo_pairings()).unwrap();
    buffer.set_content(1, b"HELLO WORLD".to_vec());
    buffer.set_content(3, b"HELLO WORLD".to_vec());
    for _ in 0..3 {
        buffer.refresh();
    }
    assert_eq!(buffer.line2().animation().offset, 3);
    assert_eq!(buffer.line4().animation().offset, 3);
    assert!(buffer.set_content(1, b"SOMETHING ELSE".to_vec()));
    assert_eq!(buffer.line2().animation(), Animation::initial());
    assert_eq!(buffer.line2().content(), b"SOMETHING ELSE");
    assert_eq!(buffer.line4().animation().offset, 3);
    assert_eq!(buffer.line4().content(), b"HELLO WORLD");
}

#[test]
fn there_is_no_fifth_row() {
    let mut buffer = Buffer::new(5, demo_pairings()).unwrap();
    buffer.set_content(3, b"LAST".to_vec());
    assert!(!buffer.set_content(4, b"NOWHERE".to_vec()));
    assert!(!buffer.set_content(usize::MAX, b"NOWHERE".to_vec()));
    assert!(buffer.line1().content().is_empty());
    assert_eq!(buffer.line4().content(), b"LAST");
}

#[test]
fn the_cursor_stays_within_the_display() {
    let mut buffer = Buffer::new(20, demo_pairings()).unwrap();
    assert_eq!(buffer.move_cursor(2, 19), Some(DisplayOp::SetCursor { row: 2, col: 19 }));
    assert_eq!(buffer.cursor(), Cursor { row: 2, col: 19 });
    assert_eq!(buffer.move_cursor(2, 20), None);
    assert_eq!(buffer.move_cursor(4, 0), None);
    assert_eq!(buffer.cursor(), Cursor { row: 2, col: 19 });
    assert_eq!(buffer.move_cursor(0, 0), Some(DisplayOp::SetCursor { row: 0, col: 0 }));
    assert_eq!(buffer.cursor(), Cursor { row: 0, col: 0 });
}
