use carta_term::ascii::{build_ascii_buffer, glyph_of};
use carta_term::hexdump::{build_hex_buffer, group_digits};

fn bytes(range: std::ops::Range<u32>) -> Vec<u8> {
    range.map(|value| (value % 256) as u8).collect()
}

fn digits_of(lines: &[String]) -> String {
    lines.iter().flat_map(|line| line.chars()).filter(|ch| *ch != ' ').collect()
}

#[test]
fn hex_of_two_bytes_is_one_group() {
    assert_eq!(build_hex_buffer(&vec![0x41, 0x42]), vec!["4142".to_string()]);
}

#[test]
fn ascii_of_two_bytes_is_one_line() {
    assert_eq!(build_ascii_buffer(&vec![0x41, 0x42]), vec!["AB".to_string()]);
}

#[test]
fn empty_data_gives_no_lines() {
    assert_eq!(build_hex_buffer(&Vec::new()), Vec::<String>::new());
    assert_eq!(build_ascii_buffer(&Vec::new()), Vec::<String>::new());
}

#[test]
fn hex_digits_are_lowercase_and_high_nibble_first() {
    assert_eq!(build_hex_buffer(&vec![0x0f, 0xa0, 0xff, 0x00]), vec!["0fa0 ff00".to_string()]);
    assert_eq!(build_hex_buffer(&vec![0x9a]), vec!["9a".to_string()]);
    assert_eq!(build_hex_buffer(&vec![0x01, 0x23, 0x45]), vec!["0123 45".to_string()]);
}

#[test]
fn hex_full_line_has_eight_groups() {
    let lines = build_hex_buffer(&bytes(0..16));
    assert_eq!(lines, vec!["0001 0203 0405 0607 0809 0a0b 0c0d 0e0f".to_string()]);
    assert_eq!(lines[0].len(), 39);
}

#[test]
fn hex_breaks_after_sixteen_bytes() {
    let lines = build_hex_buffer(&bytes(0..17));
    assert_eq!(
        lines,
        vec!["0001 0203 0405 0607 0809 0a0b 0c0d 0e0f".to_string(), "10".to_string()]
    );
    let lines = build_hex_buffer(&bytes(0..32));
    assert_eq!(lines.len(), 2);
    assert_eq!(lines[1], "1011 1213 1415 1617 1819 1a1b 1c1d 1e1f");
}

#[test]
fn hex_line_count_and_digit_counts() {
    for len in 0..100u32 {
        let data = bytes(0..len);
        let lines = build_hex_buffer(&data);
        let digits = 2 * len as usize;
        assert_eq!(lines.len(), (digits + 31) / 32);
        for (row, line) in lines.iter().enumerate() {
            let count = line.chars().filter(|ch| ch.is_ascii_hexdigit()).count();
            let spaces = line.chars().filter(|ch| *ch == ' ').count();
            assert_eq!(count + spaces, line.chars().count());
            if row + 1 < lines.len() {
                assert_eq!(count, 32);
                assert_eq!(spaces, 7);
            } else if digits % 32 != 0 {
                assert_eq!(count, digits % 32);
            } else {
                assert_eq!(count, 32);
            }
        }
    }
}

#[test]
fn hex_digits_match_the_encoder() {
    let data = bytes(0..600);
    assert_eq!(digits_of(&build_hex_buffer(&data)), hex::encode(&data));
}

#[test]
fn group_digits_wraps_any_digit_text() {
    assert_eq!(group_digits(""), Vec::<String>::new());
    assert_eq!(group_digits("abc"), vec!["abc".to_string()]);
    assert_eq!(group_digits("abcd"), vec!["abcd".to_string()]);
    assert_eq!(group_digits("abcde"), vec!["abcd e".to_string()]);
    let long = "0123456789abcdef0123456789abcdef0";
    assert_eq!(
        group_digits(long),
        vec!["0123 4567 89ab cdef 0123 4567 89ab cdef".to_string(), "0".to_string()]
    );
}

#[test]
fn ascii_shows_printable_bytes_and_a_dot_for_others() {
    assert_eq!(glyph_of(31), '.');
    assert_eq!(glyph_of(32), ' ');
    assert_eq!(glyph_of(65), 'A');
    assert_eq!(glyph_of(126), '~');
    assert_eq!(glyph_of(127), '.');
    assert_eq!(glyph_of(0), '.');
    assert_eq!(glyph_of(255), '.');
    assert_eq!(build_ascii_buffer(&vec![0, 72, 105, 10, 126, 127, 200]), vec![".Hi.~..".to_string()]);
}

#[test]
fn ascii_breaks_after_sixteen_bytes() {
    let data: Vec<u8> = (b'a'..=b'q').collect();
    assert_eq!(
        build_ascii_buffer(&data),
        vec!["abcdefghijklmnop".to_string(), "q".to_string()]
    );
    let data: Vec<u8> = (b'a'..=b'p').collect();
    assert_eq!(build_ascii_buffer(&data), vec!["abcdefghijklmnop".to_string()]);
}

#[test]
fn ascii_line_count_and_characters() {
    for len in 0..100u32 {
        let data = bytes(0..len);
        let lines = build_ascii_buffer(&data);
        assert_eq!(lines.len(), (len as usize + 15) / 16);
        let shown: Vec<char> = lines.iter().flat_map(|line| line.chars()).collect();
        assert_eq!(shown.len(), data.len());
        for (byte, ch) in data.iter().zip(shown) {
            if (32..=126).contains(byte) {
                assert_eq!(ch, *byte as char);
            } else {
                assert_eq!(ch, '.');
            }
        }
    }
}

#[test]
fn hex_and_ascii_rows_cover_the_same_bytes() {
    let data = bytes(20..91);
    let hex_lines = build_hex_buffer(&data);
    let ascii_lines = build_ascii_buffer(&data);
    assert_eq!(hex_lines.len(), ascii_lines.len());
    for row in 0..hex_lines.len() {
        let end = usize::min(16 * row + 16, data.len());
        let part = data[16 * row..end].to_vec();
        assert_eq!(hex_lines[row].replace(' ', ""), hex::encode(&part));
        assert_eq!(ascii_lines[row].chars().count(), part.len());
        let hex: Vec<char> = hex_lines[row].chars().collect();
        let ascii: Vec<char> = ascii_lines[row].chars().collect();
        for (j, byte) in part.iter().enumerate() {
            let column = 5 * (j / 2) + 2 * (j % 2);
            let pair: String = hex[column..column + 2].iter().collect();
            assert_eq!(pair, format!("{:02x}", byte));
            assert_eq!(ascii[j], glyph_of(*byte));
        }
    }
}
