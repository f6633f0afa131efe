use microbit_kit::serial::{reverse_line, Command, LineBuffer, CARRIAGE_RETURN};

#[test]
fn line_ends_on_carriage_return() {
    let mut b: LineBuffer<64> = LineBuffer::new();
    assert!(!b.push(b'a'));
    assert!(!b.push(b'b'));
    assert!(b.push(CARRIAGE_RETURN));
    assert_eq!(b.as_bytes(), b"ab");
    b.clear();
    assert_eq!(b.as_bytes(), b"");
}

#[test]
fn line_ends_when_full() {
    let mut b: LineBuffer<3> = LineBuffer::new();
    assert!(!b.push(b'x'));
    assert!(!b.push(b'y'));
    assert!(!b.is_full());
    assert!(b.push(b'z'));
    assert!(b.is_full());
    assert_eq!(b.as_bytes(), b"xyz");
    // a carriage return into a full buffer only ends the line again
    assert!(b.push(CARRIAGE_RETURN));
    assert_eq!(b.as_bytes(), b"xyz");
}

#[test]
fn reverse_ascii_and_unicode() {
    assert_eq!(reverse_line(b"abc"), Some(vec!['c', 'b', 'a']));
    assert_eq!(reverse_line("h\u{e9}llo".as_bytes()), Some(vec!['o', 'l', 'l', '\u{e9}', 'h']));
    assert_eq!(reverse_line(b""), Some(vec![]));
}

#[test]
fn reverse_rejects_invalid_utf8() {
    assert_eq!(reverse_line(&[0xFF]), None);
    assert_eq!(reverse_line(&[b'a', 0xC3]), None);
}

#[test]
fn reversing_twice_gives_the_line() {
    let line = "micro:bit \u{2764}";
    let once: String = reverse_line(line.as_bytes()).unwrap().into_iter().collect();
    let twice: String = reverse_line(once.as_bytes()).unwrap().into_iter().collect();
    assert_eq!(twice, line);
}

#[test]
fn parse_commands() {
    assert_eq!(Command::parse(b"mag"), Command::Magnetometer);
    assert_eq!(Command::parse(b"acc"), Command::Accelerometer);
    assert_eq!(Command::parse(b"ma"), Command::Unknown);
    assert_eq!(Command::parse(b"mag "), Command::Unknown);
    assert_eq!(Command::parse(b""), Command::Unknown);
    assert_eq!(Command::parse(&[0xFF, 0xFE]), Command::NotText);
    assert!(Command::Unknown.clears_line());
    assert!(Command::Magnetometer.clears_line());
    assert!(!Command::NotText.clears_line());
}
