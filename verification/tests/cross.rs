use beeline::codec::{split_lines, split_text};
use beeline::list::contains;
use beeline::number::is_number;
use beeline::stamp::{format_timestamp, parse_timestamp};
use beeline::text::trim;
use time::format_description::parse_borrowed;
use time::{OffsetDateTime, PrimitiveDateTime, UtcOffset};

const PATTERN: &str = "[year]-[month]-[day] [hour]:[minute]:[second]";

fn texts_over(alphabet: &[char], longest: usize) -> Vec<String> {
    let mut all = vec![String::new()];
    let mut last = vec![String::new()];
    for _ in 0..longest {
        let mut next = Vec::new();
        for text in &last {
            for c in alphabet {
                let mut longer = text.clone();
                longer.push(*c);
                next.push(longer);
            }
        }
        all.extend(next.iter().cloned());
        last = next;
    }
    all
}

#[test]
fn numbers_are_the_texts_that_parse() {
    let alphabet = ['+', '-', '.', 'e', 'E', '0', '7', 'i', 'n', 'f', 'a', 'N', ' '];
    for text in texts_over(&alphabet, 5) {
        assert_eq!(is_number(&text), text.parse::<f64>().is_ok(), "{text:?}");
    }
    for text in ["infinity", "INFINITY", "-Infinity", "+infinity", "infinit", "infinityy", "nan0"] {
        assert_eq!(is_number(text), text.parse::<f64>().is_ok(), "{text:?}");
    }
}

#[test]
fn lines_are_the_lines_of_the_language() {
    let alphabet = ['a', '\n', '\r', '\t'];
    for text in texts_over(&alphabet, 7) {
        let expected: Vec<String> = std::io::BufRead::lines(text.as_bytes())
            .map(|line| line.expect("text"))
            .collect();
        assert_eq!(split_lines(&text), expected, "{text:?}");
    }
}

#[test]
fn fields_are_the_pieces_between_tabs() {
    let alphabet = ['a', 'b', '\t'];
    for text in texts_over(&alphabet, 7) {
        let expected: Vec<String> = text.split('\t').map(|piece| piece.to_string()).collect();
        assert_eq!(split_text(&text, '\t'), expected, "{text:?}");
    }
}

#[test]
fn trimming_and_searching_agree_with_the_language() {
    let alphabet = ['a', 'b', ' ', '\n', '\u{a0}'];
    let texts = texts_over(&alphabet, 5);
    for text in &texts {
        assert_eq!(trim(text), text.trim(), "{text:?}");
    }
    let needles = texts_over(&['a', 'b'], 3);
    for hay in texts_over(&['a', 'b'], 6) {
        for needle in &needles {
            assert_eq!(contains(&hay, needle), hay.contains(needle.as_str()), "{hay:?} {needle:?}");
        }
    }
}

#[test]
fn timestamps_are_written_as_the_calendar_writes_them() {
    let pattern = parse_borrowed::<2>(PATTERN).expect("a pattern");
    let mut unix: i64 = -62_167_219_200;
    while unix < 253_402_300_800 {
        for seconds in [0, 3_600, -18_000, 20_700, -43_200, 50_400] {
            let offset = UtcOffset::from_whole_seconds(seconds).expect("an offset");
            let expected = OffsetDateTime::from_unix_timestamp(unix)
                .ok()
                .and_then(|at| at.checked_to_offset(offset))
                .filter(|at| (0..=9999).contains(&at.year()))
                .map(|at| at.format(&pattern).expect("in range"));
            assert_eq!(format_timestamp(unix, seconds), expected, "{unix} {seconds}");
        }
        unix += 86_399 * 997;
    }
}

#[test]
fn timestamps_are_read_as_the_calendar_reads_them() {
    let pattern = parse_borrowed::<2>(PATTERN).expect("a pattern");
    let texts = [
        "2024-01-15 09:00:00",
        "2024-02-29 23:59:59",
        "2023-02-29 00:00:00",
        "2024-04-31 00:00:00",
        "2024-00-10 00:00:00",
        "2024-13-10 00:00:00",
        "2024-12-00 00:00:00",
        "2024-12-32 00:00:00",
        "2024-12-31 24:00:00",
        "2024-12-31 23:60:00",
        "2024-12-31 23:59:60",
        "0000-01-01 00:00:00",
        "9999-12-31 23:59:59",
        "1900-02-29 12:00:00",
        "2000-02-29 12:00:00",
        "2024-1-15 09:00:00",
        "2024-01-15 9:00:00",
        "2024-01-15 09:00",
        "2024-01-15T09:00:00",
        "2024/01/15 09:00:00",
        "2024-01-15 09:00:00.5",
        "2024-01-15  09:00:00",
        " 2024-01-15 09:00:00",
        "2024-01-15 09:00:00 ",
        "24-01-15 09:00:00",
        "",
    ];
    for text in texts {
        for seconds in [0, 3_600, -18_000] {
            let offset = UtcOffset::from_whole_seconds(seconds).expect("an offset");
            let expected = PrimitiveDateTime::parse(text, &pattern)
                .ok()
                .map(|at| at.assume_offset(offset).unix_timestamp());
            assert_eq!(parse_timestamp(text, seconds), expected, "{text:?} {seconds}");
        }
    }
}

#[test]
fn written_timestamps_read_back() {
    let mut unix: i64 = -62_167_132_800;
    while unix < 253_402_214_400 {
        for seconds in [0, 3_600, -18_000, 20_700] {
            let text = format_timestamp(unix, seconds).expect("in range");
            assert_eq!(parse_timestamp(&text, seconds), Some(unix), "{unix} {seconds}");
        }
        unix += 86_399 * 1_009;
    }
}
