use procdash::log_buffer::LogBuffer;

fn lines_of(buf: &LogBuffer) -> Vec<String> {
    buf.lines_vec()
}

#[test]
fn empty_buffer() {
    let buf = LogBuffer::new(20);
    assert_eq!(buf.length(), 0);
    assert_eq!(buf.capacity(), 20);
    assert!(lines_of(&buf).is_empty());
}

#[test]
fn append_below_capacity_keeps_order() {
    let mut buf = LogBuffer::new(5);
    buf.append("first".to_string());
    buf.append("second".to_string());
    buf.append("third".to_string());
    assert_eq!(lines_of(&buf), vec!["first", "second", "third"]);
    assert_eq!(buf.length(), 3);
}

#[test]
fn eviction_keeps_last_capacity_lines() {
    let mut buf = LogBuffer::new(3);
    buf.append("a".to_string());
    buf.append("b".to_string());
    buf.append("c".to_string());
    buf.append("d".to_string());
    assert_eq!(lines_of(&buf), vec!["b", "c", "d"]);
    assert_eq!(buf.length(), 3);
}

#[test]
fn length_never_exceeds_capacity() {
    let mut buf = LogBuffer::new(4);
    for i in 0..50 {
        buf.append(format!("line {}", i));
        assert!(buf.length() <= buf.capacity());
    }
    assert_eq!(lines_of(&buf), vec!["line 46", "line 47", "line 48", "line 49"]);
}

#[test]
fn zero_capacity_stays_empty() {
    let mut buf = LogBuffer::new(0);
    buf.append("gone".to_string());
    assert_eq!(buf.length(), 0);
}

#[test]
fn clear_empties_and_keeps_capacity() {
    let mut buf = LogBuffer::new(2);
    buf.append("x".to_string());
    buf.append("y".to_string());
    buf.clear();
    assert_eq!(buf.length(), 0);
    assert_eq!(buf.capacity(), 2);
    buf.append("z".to_string());
    assert_eq!(lines_of(&buf), vec!["z"]);
}

#[test]
fn line_at_reads_oldest_first() {
    let mut buf = LogBuffer::new(3);
    buf.append("one".to_string());
    buf.append("two".to_string());
    assert_eq!(buf.line_at(0), "one");
    assert_eq!(buf.line_at(1), "two");
}
