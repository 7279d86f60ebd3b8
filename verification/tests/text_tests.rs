use nxkit::args::parse_args;
use nxkit::console::clear_screen;
use nxkit::console::cursor_move;
use nxkit::console::cursor_to;
use nxkit::console::esc;
use nxkit::console::esc_color;
use nxkit::console::fmt_u32;
use nxkit::console::text_style;
use nxkit::console::CursorMove;
use nxkit::console::TextStyle;
use nxkit::net::format_ipv4;
use nxkit::net::ipv4_octets;

#[test]
fn parse_args_splits_on_space() {
    let blob = b"foo bar\0\0".to_vec();
    let args = parse_args(&blob);
    assert_eq!(args, vec![b"foo".to_vec(), b"bar".to_vec()]);
}

#[test]
fn parse_args_splits_on_quotes_too() {
    let blob = b"\"foo\" \"bar baz\" qux\0\0\0".to_vec();
    let args = parse_args(&blob);
    assert_eq!(
        args,
        vec![
            b"foo".to_vec(),
            b"bar".to_vec(),
            b"baz".to_vec(),
            b"qux".to_vec()
        ]
    );
}

#[test]
fn parse_args_stops_at_first_nul() {
    let blob = b"foo\0bar".to_vec();
    let args = parse_args(&blob);
    assert_eq!(args, vec![b"foo".to_vec()]);
}

#[test]
fn parse_args_drops_empty_tokens() {
    assert_eq!(parse_args(&b"".to_vec()), Vec::<Vec<u8>>::new());
    assert_eq!(parse_args(&b"   \"\"  \0".to_vec()), Vec::<Vec<u8>>::new());
    assert_eq!(parse_args(&b"\0\0\0".to_vec()), Vec::<Vec<u8>>::new());
    assert_eq!(parse_args(&b"  a  \0".to_vec()), vec![b"a".to_vec()]);
}

#[test]
fn tokens_concatenate_to_input_without_delimiters() {
    let blob = b"one \"two\" three\0ignored".to_vec();
    let args = parse_args(&blob);
    let joined: Vec<u8> = args.concat();
    let expected: Vec<u8> = blob
        .iter()
        .copied()
        .take_while(|b| *b != 0)
        .filter(|b| *b != b' ' && *b != b'"')
        .collect();
    assert_eq!(joined, expected);
    for token in &args {
        assert!(!token.is_empty());
        assert!(token.iter().all(|b| *b != b' ' && *b != b'"' && *b != 0));
    }
}

#[test]
fn decimal_formatting() {
    assert_eq!(fmt_u32(0), b"0".to_vec());
    assert_eq!(fmt_u32(7), b"7".to_vec());
    assert_eq!(fmt_u32(10), b"10".to_vec());
    assert_eq!(fmt_u32(31), b"31".to_vec());
    assert_eq!(fmt_u32(4294967295), b"4294967295".to_vec());
}

#[test]
fn escape_sequences() {
    assert_eq!(esc(&b"2J".to_vec()), b"\x1b[2J".to_vec());
    assert_eq!(clear_screen(), b"\x1b[2J".to_vec());
    assert_eq!(esc_color(31), b"\x1b[31;1m".to_vec());
    assert_eq!(esc_color(37), b"\x1b[37;1m".to_vec());
    // Move the cursor to row 16 and column 20.
    assert_eq!(cursor_to(16, 20), b"\x1b[16;20H".to_vec());
    assert_eq!(cursor_to(10, 10), b"\x1b[10;10H".to_vec());
    assert_eq!(cursor_move(10, CursorMove::Up), b"\x1b[10A".to_vec());
    assert_eq!(cursor_move(19, CursorMove::Down), b"\x1b[19B".to_vec());
    assert_eq!(cursor_move(5, CursorMove::Right), b"\x1b[5C".to_vec());
    assert_eq!(cursor_move(28, CursorMove::Left), b"\x1b[28D".to_vec());
}

#[test]
fn style_sequences() {
    assert_eq!(text_style(TextStyle::Reset), b"\x1b[0m".to_vec());
    assert_eq!(text_style(TextStyle::Bold), b"\x1b[1m".to_vec());
    assert_eq!(text_style(TextStyle::Faint), b"\x1b[2m".to_vec());
    assert_eq!(text_style(TextStyle::Underline), b"\x1b[4m".to_vec());
    assert_eq!(text_style(TextStyle::Reverse), b"\x1b[7m".to_vec());
    assert_eq!(text_style(TextStyle::Strikethrough), b"\x1b[9m".to_vec());
}

#[test]
fn ipv4_conversion() {
    // Network byte order: first octet in the least significant byte.
    let raw = 0x0100A8C0u32;
    assert_eq!(ipv4_octets(raw), (192, 168, 0, 1));
    assert_eq!(format_ipv4(raw), b"192.168.0.1".to_vec());
    assert_eq!(format_ipv4(0), b"0.0.0.0".to_vec());
    assert_eq!(format_ipv4(0xFFFFFFFF), b"255.255.255.255".to_vec());
}
