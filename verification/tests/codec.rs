use beeline::bulk::{diff_datapoints, EditableDatapoint};
use beeline::codec::{
    decode_line, read_datapoints_tsv, split_lines, split_text, write_datapoints_tsv, FormatError,
    FormatReason,
};
use beeline::model::{Datapoint, Measurement};
use beeline::number::is_number;
use beeline::stamp::{format_timestamp, parse_stamp, parse_timestamp, render_stamp, Civil};

const T0: i64 = 1_705_309_200;

fn value(text: &str) -> Measurement {
    Measurement::parse(text).expect("a number")
}

fn datapoint(id: &str, timestamp: i64, text: &str, comment: Option<&str>) -> Datapoint {
    Datapoint {
        id: id.to_string(),
        value: value(text),
        timestamp,
        daystamp: "20240115".to_string(),
        comment: comment.map(|c| c.to_string()),
        updated_at: timestamp,
        requestid: None,
    }
}

#[test]
fn timestamp_text_at_utc() {
    assert_eq!(format_timestamp(0, 0), Some("1970-01-01 00:00:00".to_string()));
    assert_eq!(format_timestamp(T0, 0), Some("2024-01-15 09:00:00".to_string()));
    assert_eq!(format_timestamp(951_782_399, 0), Some("2000-02-28 23:59:59".to_string()));
    assert_eq!(format_timestamp(951_782_400, 0), Some("2000-02-29 00:00:00".to_string()));
}

#[test]
fn timestamp_text_follows_the_offset() {
    assert_eq!(format_timestamp(T0, -18_000), Some("2024-01-15 04:00:00".to_string()));
    assert_eq!(format_timestamp(T0, 3_600), Some("2024-01-15 10:00:00".to_string()));
    assert_eq!(format_timestamp(0, -1), Some("1969-12-31 23:59:59".to_string()));
}

#[test]
fn timestamp_without_text() {
    assert_eq!(format_timestamp(i64::MAX, 0), None);
    assert_eq!(format_timestamp(0, 1_000_000), None);
    assert_eq!(format_timestamp(-62_167_219_201, 0), None);
    assert_eq!(format_timestamp(-62_167_219_200, 0), Some("0000-01-01 00:00:00".to_string()));
}

#[test]
fn timestamp_read_at_an_offset() {
    assert_eq!(parse_timestamp("2024-01-15 09:00:00", 0), Some(T0));
    assert_eq!(parse_timestamp("2024-01-15 09:00:00", 3_600), Some(T0 - 3_600));
    assert_eq!(parse_timestamp("2024-01-15 09:00:00", -18_000), Some(T0 + 18_000));
    assert_eq!(parse_timestamp("1970-01-01 00:00:00", 0), Some(0));
}

#[test]
fn timestamp_that_is_none() {
    assert_eq!(parse_timestamp("2024-01-15 09:00", 0), None);
    assert_eq!(parse_timestamp("2024-01-15T09:00:00", 0), None);
    assert_eq!(parse_timestamp("2024-1-15 09:00:00", 0), None);
    assert_eq!(parse_timestamp(" 2024-01-15 09:00:00", 0), None);
    assert_eq!(parse_timestamp("2024-01-15 09:00:00 ", 0), None);
    assert_eq!(parse_timestamp("2023-02-29 09:00:00", 0), None);
    assert_eq!(parse_timestamp("2024-13-01 09:00:00", 0), None);
    assert_eq!(parse_timestamp("2024-01-15 24:00:00", 0), None);
    assert_eq!(parse_timestamp("2024-01-15 09:60:00", 0), None);
    assert_eq!(parse_timestamp("", 0), None);
    assert_eq!(parse_timestamp("2024-02-29 09:00:00", 0), Some(1_709_197_200));
}

#[test]
fn pattern_shows_and_reads_fields() {
    let civil = Civil { year: 2024, month: 1, day: 5, hour: 7, minute: 8, second: 9 };
    assert_eq!(render_stamp(civil), Some("2024-01-05 07:08:09".to_string()));
    assert_eq!(parse_stamp("2024-01-05 07:08:09"), Some(civil));
    let early = Civil { year: 7, month: 12, day: 31, hour: 23, minute: 59, second: 59 };
    assert_eq!(render_stamp(early), Some("0007-12-31 23:59:59".to_string()));
    assert_eq!(parse_stamp("0007-12-31 23:59:59"), Some(early));
    assert_eq!(render_stamp(Civil { year: 10_000, ..civil }), None);
    assert_eq!(render_stamp(Civil { year: -1, ..civil }), None);
    assert_eq!(
        parse_stamp("2024-99-99 99:99:99"),
        Some(Civil { year: 2024, month: 99, day: 99, hour: 99, minute: 99, second: 99 })
    );
    assert_eq!(parse_stamp("2024-01-05 07:08:0x"), None);
}

#[test]
fn texts_that_denote_numbers() {
    for text in [
        "0", "8", "12.5", "-3", "+3", "1.", ".5", "-.5e3", "1e10", "1E-10", "2.5e+3", "inf",
        "-inf", "Infinity", "NaN", "+nan", "007",
    ] {
        assert!(is_number(text), "{text}");
        assert_eq!(Measurement::parse(text).map(|m| m.text), Some(text.to_string()));
    }
}

#[test]
fn texts_that_denote_no_number() {
    for text in [
        "", " ", "abc", ".", "-", "+", "1e", "1e+", "e5", "1.2.3", " 5", "5 ", "5,0", "1_000",
        "0x10", "infinit", "nanx", "--1", "1e5.0", "\t5",
    ] {
        assert!(!is_number(text), "{text}");
        assert_eq!(Measurement::parse(text), None);
    }
}

#[test]
fn number_grammar_is_the_float_grammar() {
    for text in [
        "0", "8", "12.5", "-3", "+3", "1.", ".5", "-.5e3", "1e10", "1E-10", "inf", "-inf",
        "Infinity", "NaN", "+nan", "", ".", "-", "1e", "e5", "1.2.3", " 5", "5 ", "1_000",
        "0x10", "infinit", "--1", "1e5.0",
    ] {
        assert_eq!(is_number(text), text.parse::<f64>().is_ok(), "{text}");
    }
}

#[test]
fn pieces_between_tabs() {
    assert_eq!(split_text("a\tb\t\tc", '\t'), vec!["a", "b", "", "c"]);
    assert_eq!(split_text("", '\t'), vec![""]);
    assert_eq!(split_text("a\t", '\t'), vec!["a", ""]);
    assert_eq!(split_text("\t", '\t'), vec!["", ""]);
    assert_eq!(split_text("no tab", '\t'), vec!["no tab"]);
}

#[test]
fn lines_of_a_text() {
    assert_eq!(split_lines("a\nb\n"), vec!["a", "b"]);
    assert_eq!(split_lines("a\nb"), vec!["a", "b"]);
    assert_eq!(split_lines("a\r\nb\r\n"), vec!["a", "b"]);
    assert_eq!(split_lines("a\n\nb"), vec!["a", "", "b"]);
    assert_eq!(split_lines(""), Vec::<String>::new());
    assert_eq!(split_lines("\n"), vec![""]);
    assert_eq!(split_lines("a\r"), vec!["a\r"]);
    let std_lines: Vec<String> = "x\r\ny\n\nz\r".lines().map(|l| l.to_string()).collect();
    assert_eq!(split_lines("x\r\ny\n\nz\r").len(), std_lines.len());
}

#[test]
fn text_of_datapoints() {
    let datapoints = vec![
        datapoint("dp_abc123", T0, "12.5", Some("Morning run")),
        datapoint("dp_def456", T0 + 86_700, "8", None),
    ];
    assert_eq!(
        write_datapoints_tsv(&datapoints, 0),
        Some(
            "TIMESTAMP\tVALUE\tCOMMENT\tID\n\
             2024-01-15 09:00:00\t12.5\tMorning run\tdp_abc123\n\
             2024-01-16 09:05:00\t8\t\tdp_def456\n"
                .to_string()
        )
    );
    assert_eq!(write_datapoints_tsv(&vec![], 0), Some("TIMESTAMP\tVALUE\tCOMMENT\tID\n".to_string()));
}

#[test]
fn text_is_refused_for_a_timestamp_without_text() {
    let datapoints = vec![datapoint("a", T0, "1", None), datapoint("b", i64::MAX, "2", None)];
    assert_eq!(write_datapoints_tsv(&datapoints, 0), None);
}

#[test]
fn datapoints_of_a_text() {
    let text = "TIMESTAMP\tVALUE\tCOMMENT\tID\n\
                2024-01-15 09:00:00\t12.5\tMorning run\tdp_abc123\n\
                2024-01-16 09:05:00\t8\t\t\n";
    let rows = read_datapoints_tsv(text, 0).expect("well formed");
    assert_eq!(
        rows,
        vec![
            EditableDatapoint {
                id: Some("dp_abc123".to_string()),
                timestamp: T0,
                value: value("12.5"),
                comment: Some("Morning run".to_string()),
                value_moved: true,
            },
            EditableDatapoint {
                id: None,
                timestamp: T0 + 86_700,
                value: value("8"),
                comment: Some(String::new()),
                value_moved: true,
            },
        ]
    );
}

#[test]
fn header_is_skipped_whatever_it_holds() {
    assert_eq!(read_datapoints_tsv("", 0), Ok(vec![]));
    assert_eq!(read_datapoints_tsv("not a header at all\n", 0), Ok(vec![]));
    let rows = read_datapoints_tsv("x\n2024-01-15 09:00:00\t1", 0).expect("well formed");
    assert_eq!(rows.len(), 1);
    assert_eq!(rows[0].id, None);
    assert_eq!(rows[0].comment, Some(String::new()));
}

#[test]
fn short_lines_and_extra_fields() {
    let row = decode_line("2024-01-15 09:00:00\t1\tc\tid\textra\tmore", 0).expect("well formed");
    assert_eq!(row.id, Some("id".to_string()));
    assert_eq!(row.comment, Some("c".to_string()));
    let row = decode_line("2024-01-15 09:00:00\t1\tc", 0).expect("well formed");
    assert_eq!(row.id, None);
    assert_eq!(decode_line("2024-01-15 09:00:00\t1\r", 0), Err(FormatReason::BadValue));
}

#[test]
fn faults_of_a_line() {
    assert_eq!(decode_line("2024-01-15 09:00:00", 0), Err(FormatReason::MissingValue));
    assert_eq!(decode_line("", 0), Err(FormatReason::MissingValue));
    assert_eq!(decode_line("yesterday\t1", 0), Err(FormatReason::BadTimestamp));
    assert_eq!(decode_line("2024-02-30 09:00:00\t1", 0), Err(FormatReason::BadTimestamp));
    assert_eq!(decode_line("2024-01-15 09:00:00\tmany", 0), Err(FormatReason::BadValue));
    assert_eq!(decode_line("2024-01-15 09:00:00\t", 0), Err(FormatReason::BadValue));
    assert_eq!(decode_line("yesterday\tmany", 0), Err(FormatReason::BadTimestamp));
}

#[test]
fn first_faulty_line_fails_the_text() {
    let text = "TIMESTAMP\tVALUE\tCOMMENT\tID\n\
                2024-01-15 09:00:00\t1\t\ta\n\
                2024-01-15 09:00:00\tx\t\tb\n\
                nonsense\n";
    assert_eq!(
        read_datapoints_tsv(text, 0),
        Err(FormatError { line: 2, reason: FormatReason::BadValue })
    );
    assert_eq!(
        read_datapoints_tsv("h\n\n", 0),
        Err(FormatError { line: 1, reason: FormatReason::MissingValue })
    );
}

#[test]
fn written_text_reads_back() {
    let datapoints = vec![
        datapoint("a", T0, "12.5", Some("Morning run")),
        datapoint("b", T0 + 1, "-0.25", None),
        datapoint("c", 0, "1e3", Some("")),
    ];
    for offset in [0, 3_600, -18_000, 20_700] {
        let text = write_datapoints_tsv(&datapoints, offset).expect("in range");
        let rows = read_datapoints_tsv(&text, offset).expect("well formed");
        assert_eq!(rows.len(), datapoints.len());
        for (row, dp) in rows.iter().zip(datapoints.iter()) {
            assert_eq!(row.id, Some(dp.id.clone()));
            assert_eq!(row.timestamp, dp.timestamp);
            assert_eq!(row.value, dp.value);
            assert_eq!(row.comment, Some(dp.comment.clone().unwrap_or_default()));
        }
        assert!(diff_datapoints(&datapoints, &rows).plan.is_empty());
    }
}

#[test]
fn reading_at_another_offset_moves_the_timestamps() {
    let datapoints = vec![datapoint("a", T0, "1", None)];
    let text = write_datapoints_tsv(&datapoints, 3_600).expect("in range");
    let rows = read_datapoints_tsv(&text, 0).expect("well formed");
    assert_eq!(rows[0].timestamp, T0 + 3_600);
}

#[test]
fn edited_file_is_reconciled() {
    let original = vec![datapoint("1", T0, "5", Some("x")), datapoint("2", T0 + 60, "6", None)];
    let text = write_datapoints_tsv(&original, 0).expect("in range");
    let edited = text.replace("\t5\t", "\t7.0\t").replace("2024-01-15 09:01:00\t6\t\t2\n", "")
        + "2024-01-16 09:05:00\t3.0\thi\t\n";
    let rows = read_datapoints_tsv(&edited, 0).expect("well formed");
    let diff = diff_datapoints(&original, &rows);
    assert_eq!(diff.plan.updates.len(), 1);
    assert_eq!(diff.plan.updates[0].id, "1");
    assert_eq!(diff.plan.updates[0].value, Some(value("7.0")));
    assert_eq!(diff.plan.updates[0].timestamp, Some(T0));
    assert_eq!(diff.plan.updates[0].comment, Some("x".to_string()));
    assert_eq!(diff.plan.creates.len(), 1);
    assert_eq!(diff.plan.creates[0].value, value("3.0"));
    assert_eq!(diff.plan.creates[0].comment, Some("hi".to_string()));
    assert_eq!(diff.plan.creates[0].timestamp, Some(T0 + 86_700));
    assert_eq!(diff.plan.deletes, vec!["2".to_string()]);
}

#[test]
fn format_faults_have_notices() {
    assert_eq!(FormatReason::MissingValue.message(), "Missing value");
    assert_eq!(
        FormatReason::BadTimestamp.message(),
        "Invalid timestamp (expected YYYY-MM-DD HH:MM:SS)"
    );
    assert_eq!(FormatReason::BadValue.message(), "Invalid value");
    assert_eq!(
        FormatError { line: 2, reason: FormatReason::BadValue }.message(),
        "Invalid value in line 3"
    );
    assert_eq!(
        FormatError { line: usize::MAX, reason: FormatReason::MissingValue }.message(),
        format!("Missing value in line {}", usize::MAX as u128 + 1)
    );
}
