use shiro51::error::LoadError;
use shiro51::image::{decode_image, decode_line};

#[test]
fn a_line_is_pairs_of_hexadecimal_digits() {
    assert_eq!(decode_line(b""), Ok(vec![]));
    assert_eq!(decode_line(b"00"), Ok(vec![0x00]));
    assert_eq!(decode_line(b"0a1B"), Ok(vec![0x0a, 0x1b]));
    assert_eq!(decode_line(b"fFfe"), Ok(vec![0xff, 0xfe]));
    assert_eq!(
        decode_line(b"0123456789abcdefABCDEF"),
        Ok(vec![0x01, 0x23, 0x45, 0x67, 0x89, 0xab, 0xcd, 0xef, 0xab, 0xcd, 0xef])
    );
    // The first digit of a pair is the high nibble.
    assert_eq!(decode_line(b"F0"), Ok(vec![0xf0]));
    assert_eq!(decode_line(b"0F"), Ok(vec![0x0f]));
    // The digits are decoded, not handed through.
    assert_eq!(decode_line(b"3031"), Ok(vec![0x30, 0x31]));
}

#[test]
fn colons_are_passed_over() {
    assert_eq!(decode_line(b":0102"), Ok(vec![0x01, 0x02]));
    assert_eq!(decode_line(b"01:02"), Ok(vec![0x01, 0x02]));
    assert_eq!(decode_line(b"0:1:0:2:"), Ok(vec![0x01, 0x02]));
    assert_eq!(decode_line(b":"), Ok(vec![]));
    assert_eq!(
        decode_line(b":0300300002337A1E"),
        Ok(vec![0x03, 0x00, 0x30, 0x00, 0x02, 0x33, 0x7a, 0x1e])
    );
}

#[test]
fn a_malformed_line_is_refused() {
    assert_eq!(decode_line(b"0"), Err(LoadError::MalformedHex));
    assert_eq!(decode_line(b"012"), Err(LoadError::MalformedHex));
    assert_eq!(decode_line(b":0"), Err(LoadError::MalformedHex));
    assert_eq!(decode_line(b"0g"), Err(LoadError::MalformedHex));
    assert_eq!(decode_line(b"01 02"), Err(LoadError::MalformedHex));
    assert_eq!(decode_line(b"01\r"), Err(LoadError::MalformedHex));
    assert_eq!(decode_line(b"0x01"), Err(LoadError::MalformedHex));
    assert_eq!(decode_line(b"/0"), Err(LoadError::MalformedHex));
    assert_eq!(decode_line(b"@0"), Err(LoadError::MalformedHex));
    assert_eq!(decode_line(b"`0"), Err(LoadError::MalformedHex));
    assert_eq!(decode_line(&[0x30, 0xff]), Err(LoadError::MalformedHex));
}

#[test]
fn the_lines_of_an_image_follow_each_other() {
    assert_eq!(decode_image(b""), Ok(vec![]));
    assert_eq!(decode_image(b"\n"), Ok(vec![]));
    assert_eq!(decode_image(b"\n\n"), Ok(vec![]));
    assert_eq!(decode_image(b"01"), Ok(vec![0x01]));
    assert_eq!(decode_image(b"01\n"), Ok(vec![0x01]));
    assert_eq!(decode_image(b"01\n02"), Ok(vec![0x01, 0x02]));
    assert_eq!(decode_image(b"01\n\n02\n"), Ok(vec![0x01, 0x02]));
    assert_eq!(decode_image(b"0102\n:0304\n05"), Ok(vec![0x01, 0x02, 0x03, 0x04, 0x05]));
    // A pair of digits does not reach across lines.
    assert_eq!(decode_image(b"0\n1"), Err(LoadError::MalformedHex));
}

#[test]
fn a_carriage_return_before_the_line_feed_belongs_to_the_line_ending() {
    assert_eq!(decode_image(b"01\r\n02\r\n"), Ok(vec![0x01, 0x02]));
    assert_eq!(decode_image(b"\r\n"), Ok(vec![]));
    assert_eq!(decode_image(b"01\r\n02"), Ok(vec![0x01, 0x02]));
    // Only one, and only before a line feed.
    assert_eq!(decode_image(b"01\r\r\n"), Err(LoadError::MalformedHex));
    assert_eq!(decode_image(b"01\r"), Err(LoadError::MalformedHex));
    assert_eq!(decode_image(b"01\r02\n"), Err(LoadError::MalformedHex));
    // A colon between the digits and the carriage return is still passed over.
    assert_eq!(decode_image(b"01:\r\n"), Ok(vec![0x01]));
}

#[test]
fn one_malformed_line_spoils_the_image() {
    assert_eq!(decode_image(b"01\nxx\n02"), Err(LoadError::MalformedHex));
    assert_eq!(decode_image(b"xx\n01"), Err(LoadError::MalformedHex));
    assert_eq!(decode_image(b"01\n02\n0"), Err(LoadError::MalformedHex));
}
