use volym::demos::simple::importance::SegmentInfo;
use volym::segments::classify_line;
use volym::segments::parse_u8;
use volym::segments::read_segments;
use volym::segments::SegmentField;
use volym::segments::SegmentLine;
use volym::segments::SegmentTable;
use volym::segments::SegmentsError;

fn lines(text: &[&str]) -> Vec<String> {
    text.iter().map(|line| line.to_string()).collect()
}

fn segment(index: u8, name: &str, id: &str, label_value: u8) -> SegmentInfo {
    SegmentInfo {
        id: id.to_string(),
        name: name.to_string(),
        index,
        label_value,
        importance: 0,
    }
}

#[test]
fn header_lines_are_taken_apart() {
    assert_eq!(
        classify_line("Segment12_Name:=left kidney"),
        Some(SegmentLine {
            field: SegmentField::Name,
            index: "12".to_string(),
            value: "left kidney".to_string()
        })
    );
    assert_eq!(
        classify_line("Segment0_ID:=Segment_1"),
        Some(SegmentLine {
            field: SegmentField::Id,
            index: "0".to_string(),
            value: "Segment_1".to_string()
        })
    );
    assert_eq!(
        classify_line("Segment3_LabelValue:=7"),
        Some(SegmentLine {
            field: SegmentField::LabelValue,
            index: "3".to_string(),
            value: "7".to_string()
        })
    );
    assert_eq!(
        classify_line("Segment3_Name:="),
        Some(SegmentLine {
            field: SegmentField::Name,
            index: "3".to_string(),
            value: String::new()
        })
    );
}

#[test]
fn other_lines_say_nothing_of_segments() {
    assert_eq!(classify_line(""), None);
    assert_eq!(classify_line("NRRD0004"), None);
    assert_eq!(classify_line("Segment_Name:=x"), None);
    assert_eq!(classify_line("Segment1_Color:=0.5 0.5 0.5"), None);
    assert_eq!(classify_line("Segment1_Name=x"), None);
    assert_eq!(classify_line("segment1_Name:=x"), None);
    assert_eq!(classify_line("Segment1_NameAutoGenerated:=1"), None);
}

#[test]
fn a_match_may_start_anywhere_in_the_line() {
    assert_eq!(
        classify_line("  # Segment5_ID:=abc"),
        Some(SegmentLine {
            field: SegmentField::Id,
            index: "5".to_string(),
            value: "abc".to_string()
        })
    );
}

#[test]
fn the_name_pattern_is_tried_first() {
    // the line is an identifier line that holds a name line
    assert_eq!(
        classify_line("Segment1_ID:=Segment2_Name:=x"),
        Some(SegmentLine {
            field: SegmentField::Name,
            index: "2".to_string(),
            value: "x".to_string()
        })
    );
    // and a label line that holds an identifier line
    assert_eq!(
        classify_line("Segment1_LabelValue:=Segment9_ID:=y"),
        Some(SegmentLine {
            field: SegmentField::Id,
            index: "9".to_string(),
            value: "y".to_string()
        })
    );
}

#[test]
fn bytes_are_read_in_decimal() {
    assert_eq!(parse_u8("0"), Some(0));
    assert_eq!(parse_u8("7"), Some(7));
    assert_eq!(parse_u8("255"), Some(255));
    assert_eq!(parse_u8("+5"), Some(5));
    assert_eq!(parse_u8("007"), Some(7));
    assert_eq!(parse_u8("0000000000000000000000255"), Some(255));
    assert_eq!(parse_u8("256"), None);
    assert_eq!(parse_u8("1000"), None);
    assert_eq!(parse_u8("99999999999999999999999"), None);
    assert_eq!(parse_u8(""), None);
    assert_eq!(parse_u8("+"), None);
    assert_eq!(parse_u8("++1"), None);
    assert_eq!(parse_u8("-1"), None);
    assert_eq!(parse_u8("-0"), None);
    assert_eq!(parse_u8(" 1"), None);
    assert_eq!(parse_u8("1 "), None);
    assert_eq!(parse_u8("1a"), None);
    assert_eq!(parse_u8("1_0"), None);
    assert_eq!(parse_u8("٣"), None);
}

#[test]
fn bytes_are_read_as_the_standard_library_reads_them() {
    let samples = [
        "0", "9", "10", "99", "100", "199", "200", "249", "250", "255", "256", "260", "300", "999",
        "+0", "+255", "+256", "00", "0255", "", "+", "-", "-5", "a", "5a", "a5", " 5", "5 ", "2 5",
        "٣", "1٣", "２", "+-1", "1+", "0x10", "1e1", "1.0",
    ];
    for sample in samples {
        assert_eq!(parse_u8(sample), sample.parse::<u8>().ok(), "{:?}", sample);
    }
    for n in 0u32..400 {
        let text = n.to_string();
        assert_eq!(parse_u8(&text), text.parse::<u8>().ok());
    }
}

#[test]
fn segments_come_out_in_the_order_of_their_numbers() {
    let header = lines(&[
        "NRRD0004",
        "type: unsigned char",
        "Segment2_ID:=Segment_3",
        "Segment2_LabelValue:=3",
        "Segment2_Name:=liver",
        "Segment0_ID:=Segment_1",
        "Segment0_Name:=heart",
        "Segment0_LabelValue:=1",
        "Segment10_LabelValue:=200",
        "Segment10_Name:=spleen",
        "Segment10_ID:=Segment_11",
        "Segment2_Color:=1 0 0",
        "",
    ]);
    assert_eq!(
        read_segments(&header),
        Ok(vec![
            segment(0, "heart", "Segment_1", 1),
            segment(2, "liver", "Segment_3", 3),
            segment(10, "spleen", "Segment_11", 200),
        ])
    );
}

#[test]
fn a_header_without_segments_has_none() {
    assert_eq!(read_segments(&Vec::new()), Ok(Vec::new()));
    assert_eq!(read_segments(&lines(&["NRRD0004", "sizes: 1 2 3"])), Ok(Vec::new()));
    // identifiers and labels without a name describe no segment
    assert_eq!(
        read_segments(&lines(&["Segment1_ID:=a", "Segment1_LabelValue:=1"])),
        Ok(Vec::new())
    );
}

#[test]
fn the_last_line_about_a_thing_counts() {
    let header = lines(&[
        "Segment1_Name:=first",
        "Segment1_ID:=a",
        "Segment1_LabelValue:=1",
        "Segment01_Name:=second",
        "Segment1_LabelValue:=+2",
        "Segment001_ID:=b",
    ]);
    assert_eq!(read_segments(&header), Ok(vec![segment(1, "second", "b", 2)]));
}

#[test]
fn a_segment_number_that_is_no_byte_is_an_error() {
    let header = lines(&["Segment1_Name:=a", "Segment256_Name:=b"]);
    assert_eq!(read_segments(&header), Err(SegmentsError::BadIndex { line: 1 }));
    let header = lines(&["x", "y", "Segment٣_ID:=b"]);
    assert_eq!(read_segments(&header), Err(SegmentsError::BadIndex { line: 2 }));
    let header = lines(&["Segment999_LabelValue:=zzz"]);
    assert_eq!(read_segments(&header), Err(SegmentsError::BadIndex { line: 0 }));
}

#[test]
fn a_label_that_is_no_byte_is_an_error() {
    let header = lines(&["Segment1_Name:=a", "Segment1_ID:=b", "Segment1_LabelValue:=256"]);
    assert_eq!(read_segments(&header), Err(SegmentsError::BadLabelValue { line: 2 }));
    let header = lines(&["Segment1_LabelValue:="]);
    assert_eq!(read_segments(&header), Err(SegmentsError::BadLabelValue { line: 0 }));
    let header = lines(&["Segment1_LabelValue:= 4"]);
    assert_eq!(read_segments(&header), Err(SegmentsError::BadLabelValue { line: 0 }));
}

#[test]
fn the_first_bad_line_is_reported() {
    let header = lines(&["Segment1_LabelValue:=x", "Segment300_Name:=b"]);
    assert_eq!(read_segments(&header), Err(SegmentsError::BadLabelValue { line: 0 }));
    // a bad line is reported before a missing identifier
    let header = lines(&["Segment1_Name:=a", "Segment300_Name:=b"]);
    assert_eq!(read_segments(&header), Err(SegmentsError::BadIndex { line: 1 }));
}

#[test]
fn a_named_segment_needs_identifier_and_label() {
    let header = lines(&["Segment4_Name:=a", "Segment4_LabelValue:=1"]);
    assert_eq!(read_segments(&header), Err(SegmentsError::MissingId { index: 4 }));
    let header = lines(&["Segment4_Name:=a", "Segment4_ID:=b"]);
    assert_eq!(read_segments(&header), Err(SegmentsError::MissingLabelValue { index: 4 }));
    let header = lines(&["Segment4_Name:=a"]);
    assert_eq!(read_segments(&header), Err(SegmentsError::MissingId { index: 4 }));
    // the segment with the lowest number is reported
    let header = lines(&[
        "Segment9_Name:=a",
        "Segment3_Name:=b",
        "Segment3_ID:=c",
        "Segment1_Name:=d",
        "Segment1_ID:=e",
        "Segment1_LabelValue:=1",
    ]);
    assert_eq!(read_segments(&header), Err(SegmentsError::MissingLabelValue { index: 3 }));
}

#[test]
fn the_table_takes_lines_one_by_one() {
    let mut table = SegmentTable::new();
    assert_eq!(table.segments(), Ok(Vec::new()));
    let line = |field, index: &str, value: &str| SegmentLine {
        field,
        index: index.to_string(),
        value: value.to_string(),
    };
    assert_eq!(table.record(line(SegmentField::Name, "255", "last"), 0), Ok(()));
    assert_eq!(table.segments(), Err(SegmentsError::MissingId { index: 255 }));
    assert_eq!(table.record(line(SegmentField::Id, "255", "id"), 1), Ok(()));
    assert_eq!(table.segments(), Err(SegmentsError::MissingLabelValue { index: 255 }));
    assert_eq!(
        table.record(line(SegmentField::LabelValue, "255", "nine"), 2),
        Err(SegmentsError::BadLabelValue { line: 2 })
    );
    assert_eq!(
        table.record(line(SegmentField::LabelValue, "2555", "9"), 3),
        Err(SegmentsError::BadIndex { line: 3 })
    );
    assert_eq!(table.segments(), Err(SegmentsError::MissingLabelValue { index: 255 }));
    assert_eq!(table.record(line(SegmentField::LabelValue, "255", "9"), 4), Ok(()));
    assert_eq!(table.segments(), Ok(vec![segment(255, "last", "id", 9)]));
}
