use stracciatella::config::format_resolution;
use stracciatella::config::parse_resolution;

fn rejected() -> Result<(u16, u16), String> {
    Err(String::from("Incorrect resolution format, should be WIDTHxHEIGHT."))
}

#[test]
fn parse_resolution_reads_width_and_height() {
    assert_eq!(parse_resolution("1024x768"), Ok((1024, 768)));
    assert_eq!(parse_resolution("640x480"), Ok((640, 480)));
    assert_eq!(parse_resolution("1x1"), Ok((1, 1)));
    assert_eq!(parse_resolution("65535x65535"), Ok((65535, 65535)));
}

#[test]
fn parse_resolution_accepts_a_plus_sign_and_leading_zeros() {
    assert_eq!(parse_resolution("+800x+600"), Ok((800, 600)));
    assert_eq!(parse_resolution("0800x0600"), Ok((800, 600)));
}

#[test]
fn parse_resolution_rejects_what_is_not_two_numbers_around_an_x() {
    assert_eq!(parse_resolution("a"), rejected());
    assert_eq!(parse_resolution(""), rejected());
    assert_eq!(parse_resolution("x"), rejected());
    assert_eq!(parse_resolution("1024"), rejected());
    assert_eq!(parse_resolution("1024x"), rejected());
    assert_eq!(parse_resolution("x768"), rejected());
    assert_eq!(parse_resolution("1024X768"), rejected());
    assert_eq!(parse_resolution("1024x768x32"), rejected());
    assert_eq!(parse_resolution("1024 x 768"), rejected());
    assert_eq!(parse_resolution("-1x1"), rejected());
    assert_eq!(parse_resolution("+x1"), rejected());
}

#[test]
fn parse_resolution_rejects_zero_and_what_does_not_fit_16_bits() {
    assert_eq!(parse_resolution("0x480"), rejected());
    assert_eq!(parse_resolution("640x0"), rejected());
    assert_eq!(parse_resolution("65536x1"), rejected());
    assert_eq!(parse_resolution("1x65536"), rejected());
    assert_eq!(parse_resolution("99999999999999999999x1"), rejected());
}

#[test]
fn format_resolution_writes_shortest_decimals() {
    assert_eq!(format_resolution(100, 100), "100x100");
    assert_eq!(format_resolution(640, 480), "640x480");
    assert_eq!(format_resolution(1, 65535), "1x65535");
    assert_eq!(format_resolution(10, 9), "10x9");
}

#[test]
fn formatting_and_parsing_invert_each_other() {
    let samples: [(u16, u16); 6] = [(1, 1), (9, 10), (640, 480), (1100, 480), (65535, 1), (12345, 54321)];
    for &(w, h) in samples.iter() {
        let text = format_resolution(w, h);
        assert_eq!(parse_resolution(&text), Ok((w, h)));
        let (pw, ph) = parse_resolution(&text).unwrap();
        assert_eq!(format_resolution(pw, ph), text);
    }
}

fn reference(text: &str) -> Option<(u16, u16)> {
    let at = text.find('x')?;
    let width = text[..at].parse::<u16>().ok()?;
    let height = text[at + 1..].parse::<u16>().ok()?;
    if width > 0 && height > 0 {
        Some((width, height))
    } else {
        None
    }
}

#[test]
fn parse_resolution_reads_numbers_as_the_standard_library_does() {
    let samples = [
        "1x1", "+1x1", "1x+1", "++1x1", "+x+", "-0x1", "00x01", "0x0", "+0x1", "000001x000002",
        "65535x1", "65536x1", "1x65535", "1x65536", "4294967296x1", "1 x1", "1x1 ", " 1x1", "1x 1",
        "1.0x1", "1e2x1", "0x10x10", "1xx1", "x", "", "xx", "1x", "x1", "+", "1_0x1", "\u{663}x1",
        "1\u{d7}1", "12345x54321", "99999x1", "1x99999", "640x480", "1X1",
    ];
    for text in samples.iter() {
        assert_eq!(parse_resolution(text).ok(), reference(text));
    }
}
