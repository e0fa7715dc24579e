//! Segments of a labelled volume, read from the header of the volume's file.
//!
//! The header describes segment `n` on lines of its own:
//! `Segment<n>_Name:=...`, `Segment<n>_ID:=...` and
//! `Segment<n>_LabelValue:=...`. The lines are recognised by regular
//! expressions; everything after that (which line counts, what the numbers
//! are, which segments are complete) is decided here.

use vstd::prelude::*;
use vstd::string::StrSliceExecFns;
use crate::demos::simple::importance::SegmentInfo;

verus! {

/// The line that names segment `n`.
pub const NAME_PATTERN: &'static str = "Segment(\\d+)_Name:=(.*)";

/// The line that gives the identifier of segment `n`.
pub const ID_PATTERN: &'static str = "Segment(\\d+)_ID:=(.*)";

/// The line that gives the label of segment `n`'s voxels.
pub const LABEL_VALUE_PATTERN: &'static str = "Segment(\\d+)_LabelValue:=(.*)";

/// What the regular expression `pattern` finds in `text`: the texts of its
/// first and second capture group in the leftmost match. `None` where
/// `pattern` does not compile to a regular expression, where it matches
/// nowhere in `text`, or where one of the two groups took no part in the
/// match.
pub uninterp spec fn regex_capture_pair(pattern: Seq<char>, text: Seq<char>) -> Option<
    (Seq<char>, Seq<char>),
>;

/// A pair of strings as a pair of character sequences.
pub open spec fn pair_view(pair: Option<(String, String)>) -> Option<(Seq<char>, Seq<char>)> {
    match pair {
        Some((first, second)) => Some((first@, second@)),
        None => None,
    }
}

/// Searches `text` with the regular expression `pattern` and hands out the
/// texts of the first two capture groups.
///
/// Calls `regex::Regex::new` and `regex::Regex::captures`, then
/// `regex::Captures::get` for groups 1 and 2. Nothing is proved of them: the
/// result is, by definition, [`regex_capture_pair`] of the two arguments.
#[verifier::external_body]
fn capture_pair(pattern: &str, text: &str) -> (pair: Option<(String, String)>)
    ensures
        pair_view(pair) == regex_capture_pair(pattern@, text@),
{
    let re = regex::Regex::new(pattern).ok()?;
    let caps = re.captures(text)?;
    Some((caps.get(1)?.as_str().to_owned(), caps.get(2)?.as_str().to_owned()))
}

/// What a header line says of a segment.
#[derive(Debug, Clone, Copy, PartialEq, Eq)]
pub enum SegmentField {
    Name,
    Id,
    LabelValue,
}

/// A header line about a segment, taken apart.
#[derive(Debug, Clone, PartialEq, Eq)]
pub struct SegmentLine {
    /// What the line says.
    pub field: SegmentField,
    /// The digits between `Segment` and `_`.
    pub index: String,
    /// The text after `:=`.
    pub value: String,
}

/// A [`SegmentLine`] as a plain value.
pub struct SegmentLineView {
    pub field: SegmentField,
    pub index: Seq<char>,
    pub value: Seq<char>,
}

impl View for SegmentLine {
    type V = SegmentLineView;

    open spec fn view(&self) -> SegmentLineView {
        SegmentLineView { field: self.field, index: self.index@, value: self.value@ }
    }
}

/// The line that the three searches make out: a name line where the name
/// pattern matched, else an identifier line where the identifier pattern
/// matched, else a label line where the label pattern matched, else none.
pub open spec fn segment_line(
    name: Option<(Seq<char>, Seq<char>)>,
    id: Option<(Seq<char>, Seq<char>)>,
    label_value: Option<(Seq<char>, Seq<char>)>,
) -> Option<SegmentLineView> {
    match (name, id, label_value) {
        (Some((index, value)), _, _) => Some(
            SegmentLineView { field: SegmentField::Name, index, value },
        ),
        (None, Some((index, value)), _) => Some(
            SegmentLineView { field: SegmentField::Id, index, value },
        ),
        (None, None, Some((index, value))) => Some(
            SegmentLineView { field: SegmentField::LabelValue, index, value },
        ),
        (None, None, None) => None,
    }
}

/// What a line of the header says of a segment, if anything.
pub open spec fn classified(line: Seq<char>) -> Option<SegmentLineView> {
    segment_line(
        regex_capture_pair(NAME_PATTERN@, line),
        regex_capture_pair(ID_PATTERN@, line),
        regex_capture_pair(LABEL_VALUE_PATTERN@, line),
    )
}

/// A [`SegmentLine`], if there is one, as a plain value.
pub open spec fn line_view(line: Option<SegmentLine>) -> Option<SegmentLineView> {
    match line {
        Some(l) => Some(l@),
        None => None,
    }
}

/// Takes a line of the header apart: searches it with the name pattern, then
/// with the identifier pattern, then with the label pattern, and stops at the
/// first that matches.
pub fn classify_line(line: &str) -> (found: Option<SegmentLine>)
    ensures
        line_view(found) == classified(line@),
{
    match capture_pair(NAME_PATTERN, line) {
        Some((index, value)) => {
            return Some(SegmentLine { field: SegmentField::Name, index, value });
        },
        None => {},
    }
    match capture_pair(ID_PATTERN, line) {
        Some((index, value)) => {
            return Some(SegmentLine { field: SegmentField::Id, index, value });
        },
        None => {},
    }
    match capture_pair(LABEL_VALUE_PATTERN, line) {
        Some((index, value)) => Some(SegmentLine { field: SegmentField::LabelValue, index, value }),
        None => None,
    }
}

/// The value of a decimal digit.
pub open spec fn digit_value(c: char) -> Option<int> {
    if '0' <= c <= '9' {
        Some(c as int - '0' as int)
    } else {
        None
    }
}

/// The number that the decimal digits `digits` write; `None` where `digits`
/// is empty or holds anything but the digits `0` to `9`.
pub open spec fn decimal_value(digits: Seq<char>) -> Option<int>
    decreases digits.len(),
{
    if digits.len() == 0 {
        None
    } else if digits.len() == 1 {
        digit_value(digits[0])
    } else {
        match (decimal_value(digits.drop_last()), digit_value(digits.last())) {
            (Some(value), Some(digit)) => Some(10 * value + digit),
            _ => None,
        }
    }
}

/// The byte that `text` writes in decimal: an optional `+`, then digits whose
/// number is at most 255. `None` for any other text.
pub open spec fn decimal_u8(text: Seq<char>) -> Option<u8> {
    let digits = if text.len() > 0 && text[0] == '+' {
        text.drop_first()
    } else {
        text
    };
    match decimal_value(digits) {
        Some(value) => if value <= 255 {
            Some(value as u8)
        } else {
            None
        },
        None => None,
    }
}

/// A number does not get smaller by more digits, and digits that are not a
/// number do not become one by more digits.
proof fn lemma_decimal_prefix(digits: Seq<char>, k: int)
    requires
        1 <= k <= digits.len(),
    ensures
        decimal_value(digits.subrange(0, k)) is None ==> decimal_value(digits) is None,
        decimal_value(digits) matches Some(value) ==> 0 <= decimal_value(digits.subrange(0, k))->0
            <= value,
    decreases digits.len() - k,
{
    if k == digits.len() {
        assert(digits.subrange(0, k) =~= digits);
        lemma_decimal_nonnegative(digits);
    } else {
        lemma_decimal_prefix(digits, k + 1);
        let longer = digits.subrange(0, k + 1);
        assert(longer.drop_last() =~= digits.subrange(0, k));
        lemma_decimal_nonnegative(digits.subrange(0, k));
    }
}

/// No digits write a negative number.
proof fn lemma_decimal_nonnegative(digits: Seq<char>)
    ensures
        decimal_value(digits) matches Some(value) ==> value >= 0,
    decreases digits.len(),
{
    if digits.len() > 1 {
        lemma_decimal_nonnegative(digits.drop_last());
    }
}

/// Reads a byte written in decimal (see [`decimal_u8`]), as parsing a `u8`
/// from a string does.
pub fn parse_u8(text: &str) -> (value: Option<u8>)
    ensures
        value == decimal_u8(text@),
{
    let len: usize = text.unicode_len();
    let start: usize = if len > 0 && text.get_char(0) == '+' {
        1
    } else {
        0
    };
    let ghost digits = text@.subrange(start as int, len as int);
    assert(digits =~= if start == 1 {
        text@.drop_first()
    } else {
        text@
    });
    if start == len {
        return None;
    }
    let mut value: u32 = 0;
    let mut i: usize = start;
    while i < len
        invariant
            start <= i <= len,
            start < len,
            len == text@.len(),
            digits == text@.subrange(start as int, len as int),
            decimal_u8(text@) == match decimal_value(digits) {
                Some(number) => if number <= 255 {
                    Some(number as u8)
                } else {
                    None
                },
                None => None,
            },
            i > start ==> decimal_value(digits.subrange(0, i - start)) == Some(value as int),
            i == start ==> value == 0,
            value <= 255,
        decreases len - i,
    {
        let c: char = text.get_char(i);
        let ghost before = digits.subrange(0, i - start);
        let ghost after = digits.subrange(0, i + 1 - start);
        proof {
            assert(after.last() == c);
            assert(after.drop_last() =~= before);
            assert(decimal_value(after) == if i == start {
                digit_value(c)
            } else {
                match digit_value(c) {
                    Some(digit) => Some(10 * value + digit),
                    None => None,
                }
            });
            lemma_decimal_prefix(digits, i + 1 - start);
        }
        if c < '0' || c > '9' {
            return None;
        }
        let digit: u32 = c as u32 - '0' as u32;
        let next: u32 = 10 * value + digit;
        if next > 255 {
            return None;
        }
        value = next;
        i += 1;
    }
    assert(digits.subrange(0, len - start) =~= digits);
    Some(value as u8)
}

/// Why the header does not describe its segments.
#[derive(Debug, Clone, Copy, PartialEq, Eq)]
pub enum SegmentsError {
    /// The segment number on line `line` is no byte.
    BadIndex { line: usize },
    /// The label on line `line` is no byte.
    BadLabelValue { line: usize },
    /// Segment `index` has a name and no identifier.
    MissingId { index: u8 },
    /// Segment `index` has a name and an identifier, and no label.
    MissingLabelValue { index: u8 },
}

/// What the header has said of each segment so far, as a plain value. Each
/// sequence has an entry for every segment number from 0 to 255.
pub struct SegmentTableView {
    pub names: Seq<Option<Seq<char>>>,
    pub ids: Seq<Option<Seq<char>>>,
    pub label_values: Seq<Option<u8>>,
}

/// A segment as a plain value.
pub struct SegmentView {
    pub id: Seq<char>,
    pub name: Seq<char>,
    pub index: u8,
    pub label_value: u8,
    pub importance: u8,
}

/// A segment as a plain value.
pub open spec fn segment_view(segment: SegmentInfo) -> SegmentView {
    SegmentView {
        id: segment.id@,
        name: segment.name@,
        index: segment.index,
        label_value: segment.label_value,
        importance: segment.importance,
    }
}

/// Segments as plain values.
pub open spec fn segment_views(segments: Seq<SegmentInfo>) -> Seq<SegmentView> {
    segments.map_values(|segment: SegmentInfo| segment_view(segment))
}

impl SegmentTableView {
    /// The table of a header that has said nothing yet.
    pub open spec fn empty() -> SegmentTableView {
        SegmentTableView {
            names: Seq::new(256, |i: int| None),
            ids: Seq::new(256, |i: int| None),
            label_values: Seq::new(256, |i: int| None),
        }
    }

    /// The table has an entry for every segment number.
    pub open spec fn wf(self) -> bool {
        &&& self.names.len() == 256
        &&& self.ids.len() == 256
        &&& self.label_values.len() == 256
    }

    /// The table after the header line `line`: what the line says replaces
    /// what was said of that segment before. A line whose segment number or
    /// label is no byte is an error; `at` is the line's number.
    pub open spec fn record(self, line: SegmentLineView, at: usize) -> Result<
        SegmentTableView,
        SegmentsError,
    > {
        match decimal_u8(line.index) {
            None => Err(SegmentsError::BadIndex { line: at }),
            Some(index) => match line.field {
                SegmentField::Name => Ok(
                    SegmentTableView {
                        names: self.names.update(index as int, Some(line.value)),
                        ..self
                    },
                ),
                SegmentField::Id => Ok(
                    SegmentTableView { ids: self.ids.update(index as int, Some(line.value)), ..self },
                ),
                SegmentField::LabelValue => match decimal_u8(line.value) {
                    None => Err(SegmentsError::BadLabelValue { line: at }),
                    Some(label_value) => Ok(
                        SegmentTableView {
                            label_values: self.label_values.update(index as int, Some(label_value)),
                            ..self
                        },
                    ),
                },
            },
        }
    }

    /// The table after the lines `lines[from..]`, or the error of the first
    /// line that has one. Lines that say nothing of a segment are passed
    /// over.
    pub open spec fn record_all(self, lines: Seq<Option<SegmentLineView>>, from: int) -> Result<
        SegmentTableView,
        SegmentsError,
    >
        decreases lines.len() - from,
    {
        if from < 0 || from >= lines.len() {
            Ok(self)
        } else {
            match lines[from] {
                None => self.record_all(lines, from + 1),
                Some(line) => match self.record(line, from as usize) {
                    Ok(next) => next.record_all(lines, from + 1),
                    Err(error) => Err(error),
                },
            }
        }
    }

    /// The segments numbered `from` and up, in the order of their numbers: one
    /// for every number that has a name, with the identifier and the label of
    /// that number and importance 0. The first named segment that lacks its
    /// identifier or its label is an error.
    pub open spec fn segments(self, from: int) -> Result<Seq<SegmentView>, SegmentsError>
        decreases 256 - from,
    {
        if from < 0 || from >= 256 {
            Ok(Seq::empty())
        } else if self.names[from] is None {
            self.segments(from + 1)
        } else if self.ids[from] is None {
            Err(SegmentsError::MissingId { index: from as u8 })
        } else if self.label_values[from] is None {
            Err(SegmentsError::MissingLabelValue { index: from as u8 })
        } else {
            match self.segments(from + 1) {
                Ok(rest) => Ok(
                    seq![
                        SegmentView {
                            id: self.ids[from]->0,
                            name: self.names[from]->0,
                            index: from as u8,
                            label_value: self.label_values[from]->0,
                            importance: 0,
                        },
                    ] + rest,
                ),
                Err(error) => Err(error),
            }
        }
    }
}

/// What the header has said of each segment so far.
#[derive(Debug)]
pub struct SegmentTable {
    names: Vec<Option<String>>,
    ids: Vec<Option<String>>,
    label_values: Vec<Option<u8>>,
}

/// An optional string as an optional character sequence.
pub open spec fn text_view(text: Option<String>) -> Option<Seq<char>> {
    match text {
        Some(t) => Some(t@),
        None => None,
    }
}

impl View for SegmentTable {
    type V = SegmentTableView;

    closed spec fn view(&self) -> SegmentTableView {
        SegmentTableView {
            names: self.names@.map_values(|name: Option<String>| text_view(name)),
            ids: self.ids@.map_values(|id: Option<String>| text_view(id)),
            label_values: self.label_values@,
        }
    }
}

/// A table of `None`, one for every segment number.
fn empty_texts() -> (texts: Vec<Option<String>>)
    ensures
        texts@.len() == 256,
        forall|i: int| 0 <= i < 256 ==> texts@[i] is None,
{
    let mut texts: Vec<Option<String>> = Vec::new();
    let mut i: usize = 0;
    while i < 256
        invariant
            i <= 256,
            texts@.len() == i,
            forall|k: int| 0 <= k < i ==> texts@[k] is None,
        decreases 256 - i,
    {
        texts.push(None);
        i += 1;
    }
    texts
}

impl SegmentTable {
    /// The table of a header that has said nothing yet.
    pub fn new() -> (table: Self)
        ensures
            table@ == SegmentTableView::empty(),
            table@.wf(),
    {
        let names = empty_texts();
        let ids = empty_texts();
        let mut label_values: Vec<Option<u8>> = Vec::new();
        let mut i: usize = 0;
        while i < 256
            invariant
                i <= 256,
                label_values@.len() == i,
                forall|k: int| 0 <= k < i ==> label_values@[k] is None,
            decreases 256 - i,
        {
            label_values.push(None);
            i += 1;
        }
        let table = SegmentTable { names, ids, label_values };
        assert(table@.names =~= SegmentTableView::empty().names);
        assert(table@.ids =~= SegmentTableView::empty().ids);
        assert(table@.label_values =~= SegmentTableView::empty().label_values);
        table
    }

    /// Takes in what the header line `line`, the `at`-th of the header, says
    /// of its segment (see [`SegmentTableView::record`]). On an error the
    /// table stays as it was.
    pub fn record(&mut self, line: SegmentLine, at: usize) -> (done: Result<(), SegmentsError>)
        requires
            old(self)@.wf(),
        ensures
            final(self)@.wf(),
            match old(self)@.record(line@, at) {
                Ok(next) => done is Ok && final(self)@ == next,
                Err(error) => done == Err::<(), SegmentsError>(error) && final(self)@ == old(self)@,
            },
    {
        let index: u8 = match parse_u8(line.index.as_str()) {
            Some(index) => index,
            None => {
                return Err(SegmentsError::BadIndex { line: at });
            },
        };
        match line.field {
            SegmentField::Name => {
                let ghost value = line.value@;
                self.names.set(index as usize, Some(line.value));
                assert(self@.names =~= old(self)@.names.update(index as int, Some(value)));
                Ok(())
            },
            SegmentField::Id => {
                let ghost value = line.value@;
                self.ids.set(index as usize, Some(line.value));
                assert(self@.ids =~= old(self)@.ids.update(index as int, Some(value)));
                Ok(())
            },
            SegmentField::LabelValue => match parse_u8(line.value.as_str()) {
                Some(label_value) => {
                    self.label_values.set(index as usize, Some(label_value));
                    Ok(())
                },
                None => Err(SegmentsError::BadLabelValue { line: at }),
            },
        }
    }

    /// The segments that the header describes, in the order of their numbers
    /// (see [`SegmentTableView::segments`]).
    pub fn segments(&self) -> (segments: Result<Vec<SegmentInfo>, SegmentsError>)
        requires
            self@.wf(),
        ensures
            match self@.segments(0) {
                Ok(views) => segments matches Ok(found) && segment_views(found@) == views,
                Err(error) => segments matches Err(e) && e == error,
            },
    {
        let mut found: Vec<SegmentInfo> = Vec::new();
        let mut i: usize = 0;
        while i < 256
            invariant
                i <= 256,
                self@.wf(),
                self@.segments(0) == match self@.segments(i as int) {
                    Ok(rest) => Ok::<Seq<SegmentView>, SegmentsError>(segment_views(found@) + rest),
                    Err(error) => Err(error),
                },
            decreases 256 - i,
        {
            let ghost views = segment_views(found@);
            match &self.names[i] {
                None => {},
                Some(name) => {
                    let id: &String = match &self.ids[i] {
                        Some(id) => id,
                        None => {
                            return Err(SegmentsError::MissingId { index: i as u8 });
                        },
                    };
                    let label_value: u8 = match self.label_values[i] {
                        Some(label_value) => label_value,
                        None => {
                            return Err(SegmentsError::MissingLabelValue { index: i as u8 });
                        },
                    };
                    let segment = SegmentInfo {
                        id: id.clone(),
                        name: name.clone(),
                        index: i as u8,
                        label_value,
                        importance: 0,
                    };
                    let ghost view = segment_view(segment);
                    found.push(segment);
                    proof {
                        assert(segment_views(found@) =~= views.push(view));
                        match self@.segments(i + 1) {
                            Ok(rest) => {
                                assert(views + (seq![view] + rest) =~= views.push(view) + rest);
                            },
                            Err(_) => {},
                        }
                    }
                },
            }
            i += 1;
        }
        assert(segment_views(found@) + Seq::<SegmentView>::empty() =~= segment_views(found@));
        Ok(found)
    }
}

/// What the lines of a header say of segments, line by line.
pub open spec fn classified_lines(lines: Seq<String>) -> Seq<Option<SegmentLineView>> {
    lines.map_values(|line: String| classified(line@))
}

/// What the header `lines` describes: the error of the first line whose
/// segment number or label is no byte; else the error of the first named
/// segment without identifier or label; else the segments.
pub open spec fn header_segments(lines: Seq<String>) -> Result<Seq<SegmentView>, SegmentsError> {
    match SegmentTableView::empty().record_all(classified_lines(lines), 0) {
        Ok(table) => table.segments(0),
        Err(error) => Err(error),
    }
}

/// Reads the segments that the header `lines` describes.
///
/// Every line is searched for a name, an identifier or a label of a segment;
/// of several lines about the same thing the last one counts. The result has
/// one segment for every segment number with a name, in the order of the
/// numbers, each with importance 0. A number or a label that is no byte, and a
/// named segment without identifier or label, is an error.
pub fn read_segments(lines: &Vec<String>) -> (segments: Result<Vec<SegmentInfo>, SegmentsError>)
    ensures
        match header_segments(lines@) {
            Ok(views) => segments matches Ok(found) && segment_views(found@) == views,
            Err(error) => segments matches Err(e) && e == error,
        },
{
    let mut table = SegmentTable::new();
    let ghost entries = classified_lines(lines@);
    let mut k: usize = 0;
    while k < lines.len()
        invariant
            k <= lines@.len(),
            table@.wf(),
            entries == classified_lines(lines@),
            SegmentTableView::empty().record_all(entries, 0) == table@.record_all(entries, k as int),
        decreases lines@.len() - k,
    {
        match classify_line(lines[k].as_str()) {
            None => {},
            Some(line) => {
                match table.record(line, k) {
                    Ok(()) => {},
                    Err(error) => {
                        return Err(error);
                    },
                }
            },
        }
        k += 1;
    }
    table.segments()
}

} // verus!
