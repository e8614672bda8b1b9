use fdprogress::fdinfo::{lookup_range, read_fdinfo, InfoError};
use fdprogress::text::chars_of;

#[test]
fn read_fdinfo_of_a_usual_record() {
    let text = "pos:\t5120\nflags:\t0100002\nmnt_id:\t27\nino:\t1234\n";
    assert_eq!(read_fdinfo(text), Ok((5120, 100002)));
}

#[test]
fn read_fdinfo_in_any_order_and_without_a_last_line_feed() {
    assert_eq!(read_fdinfo("flags: 1\nother: x\npos: 9"), Ok((9, 1)));
    assert_eq!(read_fdinfo("pos:0\nflags:0"), Ok((0, 0)));
}

#[test]
fn read_fdinfo_trims_the_value_not_the_key() {
    assert_eq!(read_fdinfo("pos: \t 12 \t\nflags:\u{a0}2\u{3000}\n"), Ok((12, 2)));
    assert_eq!(read_fdinfo(" pos: 12\nflags: 2\n"), Err(InfoError::MissingPos));
    assert_eq!(read_fdinfo("pos : 12\nflags: 2\n"), Err(InfoError::MissingPos));
    assert_eq!(read_fdinfo("pos: 12\nFlags: 2\n"), Err(InfoError::MissingFlags));
    assert_eq!(read_fdinfo("pos: 12\r\nflags: 2\r\n"), Ok((12, 2)));
}

#[test]
fn read_fdinfo_takes_the_first_line_of_a_key() {
    assert_eq!(read_fdinfo("pos: 1\npos: 2\nflags: 3\nflags: 4\n"), Ok((1, 3)));
    assert_eq!(read_fdinfo("pos: x\npos: 2\nflags: 3\n"), Err(InfoError::InvalidPos));
}

#[test]
fn read_fdinfo_splits_a_line_at_its_first_colon() {
    assert_eq!(read_fdinfo("pos: 1:2\nflags: 3\n"), Err(InfoError::InvalidPos));
    assert_eq!(read_fdinfo("a:pos: 1\nflags: 3\n"), Err(InfoError::MissingPos));
    assert_eq!(read_fdinfo("pos\nflags: 3\n"), Err(InfoError::MissingPos));
}

#[test]
fn read_fdinfo_reports_a_missing_field() {
    assert_eq!(read_fdinfo(""), Err(InfoError::MissingPos));
    assert_eq!(read_fdinfo("\n\n"), Err(InfoError::MissingPos));
    assert_eq!(read_fdinfo("flags: 2\n"), Err(InfoError::MissingPos));
    assert_eq!(read_fdinfo("pos: 2\n"), Err(InfoError::MissingFlags));
    assert_eq!(read_fdinfo("flags: x\n"), Err(InfoError::MissingPos));
    assert_eq!(read_fdinfo("pos: x\n"), Err(InfoError::MissingFlags));
}

#[test]
fn read_fdinfo_reports_a_malformed_field() {
    assert_eq!(read_fdinfo("pos:\nflags: 2\n"), Err(InfoError::InvalidPos));
    assert_eq!(read_fdinfo("pos: -1\nflags: 2\n"), Err(InfoError::InvalidPos));
    assert_eq!(read_fdinfo("pos: 1 2\nflags: 2\n"), Err(InfoError::InvalidPos));
    assert_eq!(
        read_fdinfo("pos: 18446744073709551616\nflags: 2\n"),
        Err(InfoError::InvalidPos)
    );
    assert_eq!(read_fdinfo("pos: 1\nflags: rw\n"), Err(InfoError::InvalidFlags));
    assert_eq!(read_fdinfo("pos: 1\nflags:\n"), Err(InfoError::InvalidFlags));
    assert_eq!(read_fdinfo("pos: x\nflags: y\n"), Err(InfoError::InvalidPos));
}

#[test]
fn read_fdinfo_takes_the_largest_numbers() {
    assert_eq!(
        read_fdinfo("pos: 18446744073709551615\nflags: +18446744073709551615\n"),
        Ok((u64::MAX, u64::MAX))
    );
}

#[test]
fn lookup_range_gives_where_the_value_stands() {
    let chars = chars_of("a: 1\nbc:  23 \nd");
    assert_eq!(lookup_range(&chars, &chars_of("a")), Some((3, 4)));
    assert_eq!(lookup_range(&chars, &chars_of("bc")), Some((10, 12)));
    assert_eq!(lookup_range(&chars, &chars_of("d")), None);
    assert_eq!(lookup_range(&chars, &chars_of("")), None);
    let empty_key = chars_of(": v\n");
    assert_eq!(lookup_range(&empty_key, &chars_of("")), Some((2, 3)));
}

fn std_parse(text: &str) -> Option<(u64, u64)> {
    let fields = text.split("\n").filter_map(|line| line.split_once(":"));
    let pos = fields.clone().filter(|f| f.0 == "pos").map(|f| f.1.trim()).next();
    let flags = fields.filter(|f| f.0 == "flags").map(|f| f.1.trim()).next();
    match (pos, flags) {
        (Some(p), Some(f)) => match (p.parse::<u64>(), f.parse::<u64>()) {
            (Ok(p), Ok(f)) => Some((p, f)),
            _ => None,
        },
        _ => None,
    }
}

#[test]
fn read_fdinfo_agrees_with_the_standard_string_functions() {
    let texts = [
        "pos:\t0\nflags:\t0100000\nmnt_id:\t15\n",
        "pos:\t77\nflags:\t02\n",
        "flags: 1\npos: 2",
        "pos:1\n\nflags:2\n\n",
        "pos: 1\nflags: 2\npos: 3",
        "xpos: 1\nflags: 2\npos: 4",
        "pos:: 1\nflags: 2",
        "pos:\u{2003}8\u{2003}\nflags:\u{85}9",
        "pos 1\nflags 2",
        "pos: 1\n flags: 2",
        "",
        ":",
        "\n",
        "pos:\nflags:",
        "pos: +5\nflags: +0",
    ];
    for text in texts {
        assert_eq!(read_fdinfo(text).ok(), std_parse(text), "{:?}", text);
    }
}
