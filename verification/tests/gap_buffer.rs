use shush::gap_buffer::GapBuffer;

#[test]
fn insert_char() {
    // [one way of doing things]
    let buffer = "one way of doing things";
    let mut gap_buffer = GapBuffer::new();
    gap_buffer.insert(buffer.as_bytes());
    println!(
        "{} - {} + {}",
        gap_buffer.buffer_len(),
        gap_buffer.gap_start,
        gap_buffer.gap_end,
    );
    gap_buffer.insert_char('C' as u8);
    let text = gap_buffer.get_text().unwrap();
    println!("{}", text);
    assert!(text.contains('C'));
}

#[test]
fn delete_one_backwards() {
    // [one way of doing things]
    let buffer = "one way of doing things";
    let mut gap_buffer = GapBuffer::new();
    gap_buffer.insert(buffer.as_bytes());
    gap_buffer.move_gap_to_cursor(gap_buffer.buffer_len() - gap_buffer.gap_len());
    println!(
        "buffer len:{}. gap start: {}. gap end: {}.",
        gap_buffer.buffer_len(),
        gap_buffer.gap_start,
        gap_buffer.gap_end,
    );
    gap_buffer.delete_backwards(1);
    let text = gap_buffer.get_text().unwrap();
    println!("{}", text);
    assert_eq!(text, "one way of doing thing");
}

#[test]
fn delete_one_forwards() {
    // [one way of doing things]
    let buffer = "one way of doing things";
    let mut gap_buffer = GapBuffer::new();
    gap_buffer.insert(buffer.as_bytes());
    gap_buffer.move_gap_to_cursor(0);
    println!(
        "buffer len:{}. gap start: {}. gap end: {}.",
        gap_buffer.buffer_len(),
        gap_buffer.gap_start,
        gap_buffer.gap_end,
    );
    gap_buffer.delete_forwards(1);
    let text = gap_buffer.get_text().unwrap();
    println!("{}", text);
    assert_eq!(text, "ne way of doing things");
}

/// The buffer invariant, checked from outside.
fn invariant_holds(b: &GapBuffer) -> bool {
    b.gap_start <= b.gap_end
        && b.gap_end <= b.buffer_len()
        && b.text_len() == b.buffer_len() - (b.gap_end - b.gap_start)
}

#[test]
fn replay_matches_reference_model() {
    // A mixed run of inserts and deletes, replayed against a plain Vec as
    // the reference model. The gap position is the edit point of the model.
    let mut gap_buffer = GapBuffer::new();
    let mut model: Vec<u8> = Vec::new();

    gap_buffer.insert(b"hello world");
    model.splice(0..0, b"hello world".iter().copied());
    assert!(invariant_holds(&gap_buffer));

    gap_buffer.move_gap_to_cursor(5);
    assert!(invariant_holds(&gap_buffer));
    assert_eq!(gap_buffer.gap_start, 5);

    gap_buffer.insert(b",");
    model.splice(5..5, b",".iter().copied());
    assert!(invariant_holds(&gap_buffer));

    gap_buffer.delete_backwards(1);
    model.remove(5);
    assert!(invariant_holds(&gap_buffer));

    gap_buffer.delete_forwards(1);
    model.remove(5);
    assert!(invariant_holds(&gap_buffer));

    gap_buffer.move_gap_to_cursor(gap_buffer.text_len());
    gap_buffer.insert_char(b'!');
    model.push(b'!');
    assert!(invariant_holds(&gap_buffer));

    assert_eq!(gap_buffer.get_text().unwrap().as_bytes(), model.as_slice());
    assert_eq!(gap_buffer.get_text().unwrap(), "helloworld!");
}

#[test]
fn gap_relocation_preserves_text() {
    let mut gap_buffer = GapBuffer::new();
    gap_buffer.insert(b"abcdef");
    for pos in 0..=gap_buffer.text_len() {
        let mut moved = gap_buffer.clone();
        moved.move_gap_to_cursor(pos);
        assert_eq!(moved.gap_start, pos);
        assert!(invariant_holds(&moved));
        assert_eq!(moved.get_text().unwrap(), "abcdef");
    }
}

#[test]
fn growth_follows_policy() {
    // A fresh buffer holds 32 bytes of gap. The first insert fits; the
    // second does not: the needed gap is 9 + 23 = 32, whose next power of
    // two (32) beats 5% of the capacity (1), so the new storage is
    // 23 + 23 + 32 = 78 bytes with the gap at [46, 78).
    let mut gap_buffer = GapBuffer::new();
    assert_eq!(gap_buffer.buffer_len(), 32);
    gap_buffer.insert(b"one way of doing things");
    assert_eq!(gap_buffer.buffer_len(), 32);
    assert_eq!(gap_buffer.gap_start, 23);
    gap_buffer.insert(b"one way of doing things");
    assert_eq!(gap_buffer.buffer_len(), 78);
    assert_eq!(gap_buffer.gap_start, 46);
    assert_eq!(gap_buffer.gap_end, 78);
    assert_eq!(gap_buffer.text_len(), 46);
    assert!(invariant_holds(&gap_buffer));
    assert_eq!(
        gap_buffer.get_text().unwrap(),
        "one way of doing thingsone way of doing things",
    );
}

#[test]
fn insert_char_grows_full_buffer() {
    // Exactly fill the initial capacity, then insert one more byte: the
    // needed gap is 1, and 5% of the 32-byte capacity is 1, so one byte of
    // gap is added and consumed by the insertion.
    let mut gap_buffer = GapBuffer::new();
    gap_buffer.insert(b"0123456789abcdef0123456789abcdef");
    assert_eq!(gap_buffer.buffer_len(), 32);
    assert_eq!(gap_buffer.gap_start, 32);
    gap_buffer.insert_char(b'X');
    assert!(invariant_holds(&gap_buffer));
    assert_eq!(gap_buffer.get_text().unwrap(), "0123456789abcdef0123456789abcdefX");
    assert_eq!(gap_buffer.buffer_len(), 34);
}

#[test]
fn clear_keeps_capacity() {
    let mut gap_buffer = GapBuffer::new();
    gap_buffer.insert(b"some text");
    gap_buffer.clear_buffer_text();
    assert_eq!(gap_buffer.text_len(), 0);
    assert_eq!(gap_buffer.buffer_len(), 32);
    assert_eq!(gap_buffer.get_text().unwrap(), "");
    assert!(invariant_holds(&gap_buffer));
}

#[test]
fn get_text_rejects_invalid_utf8() {
    let mut gap_buffer = GapBuffer::new();
    gap_buffer.insert(&[0xff, 0xfe]);
    assert!(gap_buffer.get_text().is_err());
}
