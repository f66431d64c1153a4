use vstd::prelude::*;
use crate::date::Date;
use crate::fields::{PercentageOrSeats, PollOption, Percentage, SampleSizeQualification, Scope};
use crate::decimal::Decimal;
use crate::jurisdiction::Jurisdiction;
use crate::poll::{
    check_header, decode_row, distinct_names, first_bad_cell, has_column, header_ok,
    poll_matches, row_decodes, DecodeError, FixedColumn, Poll,
};
use crate::text::text_equals;

verus! {

#[verifier::external_type_specification]
#[verifier::external_body]
pub struct ExCsvError(csv::Error);

/// Names the records, and the fields of each, that csv's reader finds in a
/// text; `None` when it reports an error.
pub uninterp spec fn csv_records_of(s: Seq<char>) -> Option<Seq<Seq<Seq<char>>>>;

/// Relies on csv's `Reader` built by `ReaderBuilder` with its defaults
/// (comma delimiter, `"` quoting, equal record lengths) and the first line
/// read as a record: the records and errors depend on the text alone.
#[verifier::external_body]
fn read_records(s: &str) -> (r: Result<Vec<Vec<String>>, csv::Error>)
    ensures
        r matches Ok(rows) ==> csv_records_of(s@) == Some(rows.deep_view()),
        r is Err <==> csv_records_of(s@) is None,
{
    let mut rdr = csv::ReaderBuilder::new().has_headers(false).from_reader(s.as_bytes());
    rdr.records().map(|rec| rec.map(|r| r.iter().map(String::from).collect())).collect()
}

/// Why a table could not be made from a text and a jurisdiction code.
#[derive(Clone, Copy, Debug, PartialEq, Eq, Structural)]
pub enum PollTableFromStrError {
    /// The text is not well-formed comma-separated data.
    ReaderBuilderError,
    /// The code is not one of the jurisdiction table.
    InvalidJurisdictionError,
    /// The header or a row does not follow the format.
    DecodeError(DecodeError),
}

/// Why a table could not be made from a text alone.
#[derive(Clone, Copy, Debug, PartialEq, Eq, Structural)]
pub enum RawPollTableFromStrError {
    /// The text is not well-formed comma-separated data.
    ReaderBuilderError,
    /// The header or a row does not follow the format.
    DecodeError(DecodeError),
}

/// Why a table could not be made from a file.
#[derive(Clone, Copy, Debug, PartialEq, Eq, Structural)]
pub enum PollTableTryFromPathError {
    /// The file could not be read, or is not well-formed comma-separated data.
    ReaderBuilderError,
    /// The file name has an extension other than `csv`.
    NotCsvError,
    /// The path has no file name with an extension.
    InvalidPathError,
    /// The file name is not the code of a jurisdiction of the table.
    InvalidJurisdictionError,
    /// The header or a row does not follow the format.
    DecodeError(DecodeError),
}

/// Why a table has no date range.
#[derive(Clone, Copy, Debug, PartialEq, Eq, Structural)]
pub enum DateRangeError {
    /// The table holds no poll.
    EmptyTable,
    /// A date of the range is not a calendar date.
    InvalidDate,
}

/// The header of a list of records: the first record, if any.
pub open spec fn header_of(rows: Seq<Seq<Seq<char>>>) -> Seq<Seq<char>> {
    if rows.len() == 0 {
        Seq::empty()
    } else {
        rows[0]
    }
}

/// Data row `i` has a cell for each header and each cell decodes.
pub open spec fn row_ok(rows: Seq<Seq<Seq<char>>>, i: int) -> bool {
    rows[i + 1].len() == header_of(rows).len() && row_decodes(header_of(rows), rows[i + 1])
}

/// The header is valid and every data row decodes.
pub open spec fn table_decodes(rows: Seq<Seq<Seq<char>>>) -> bool {
    header_ok(header_of(rows)) && forall|i: int| 0 <= i < rows.len() - 1 ==> row_ok(rows, i)
}

/// One poll for each data row, holding what the row decodes to.
pub open spec fn polls_match(rows: Seq<Seq<Seq<char>>>, polls: Seq<Poll>) -> bool {
    &&& polls.len() + 1 == rows.len()
    &&& forall|i: int|
        0 <= i < polls.len() ==> poll_matches(header_of(rows), rows[i + 1], #[trigger] polls[i])
}

/// The error is the first fault of the records: the header's, else that
/// of the first data row that does not decode.
pub open spec fn error_fits(rows: Seq<Seq<Seq<char>>>, e: DecodeError) -> bool {
    let h = header_of(rows);
    match e {
        DecodeError::DuplicateColumn(j) => j < h.len() && exists|i: int|
            0 <= i < j && h[i] == h[j as int],
        DecodeError::MissingColumn(c) => distinct_names(h) && !has_column(h, c),
        DecodeError::RowLength(r) => header_ok(h) && r + 1 < rows.len() && rows[r + 1].len()
            != h.len() && forall|k: int| 0 <= k < r ==> row_ok(rows, k),
        DecodeError::Field { row, column } => header_ok(h) && row + 1 < rows.len() && rows[row
            + 1].len() == h.len() && first_bad_cell(h, rows[row + 1], column as int) && forall|
            k: int,
        | 0 <= k < row ==> row_ok(rows, k),
    }
}

/// Decodes the data rows of a list of records under its first record.
pub fn decode_records(rows: &Vec<Vec<String>>) -> (r: Result<Vec<Poll>, DecodeError>)
    ensures
        r is Ok <==> table_decodes(rows.deep_view()),
        r matches Ok(polls) ==> polls_match(rows.deep_view(), polls@),
        r matches Err(e) ==> error_fits(rows.deep_view(), e),
{
    let ghost rv = rows.deep_view();
    let empty: Vec<String> = Vec::new();
    let header: &Vec<String> = if rows.len() == 0 {
        &empty
    } else {
        &rows[0]
    };
    assert(header.deep_view() =~= header_of(rv));
    match check_header(header) {
        Ok(()) => {},
        Err(e) => return Err(e),
    }
    assert(has_column(header_of(rv), FixedColumn::PollingFirm));
    let mut polls: Vec<Poll> = Vec::new();
    let mut i: usize = 1;
    while i < rows.len()
        invariant
            rv == rows.deep_view(),
            header.deep_view() == header_of(rv),
            header_ok(header_of(rv)),
            1 <= i <= rows@.len(),
            polls@.len() + 1 == i,
            forall|k: int| 0 <= k < i - 1 ==> row_ok(rv, k),
            forall|k: int|
                0 <= k < polls@.len() ==> poll_matches(header_of(rv), rv[k + 1], #[trigger] polls@[k]),
        decreases rows@.len() - i,
    {
        let cells = &rows[i];
        assert(cells.deep_view() == rv[i as int]);
        if cells.len() != header.len() {
            assert(!row_ok(rv, i - 1));
            return Err(DecodeError::RowLength(i - 1));
        }
        match decode_row(header, cells, i - 1) {
            Ok(p) => polls.push(p),
            Err(e) => {
                assert(!row_ok(rv, i - 1));
                return Err(e);
            },
        }
        i = i + 1;
    }
    Ok(polls)
}

/// Splits a text into records and decodes them.
fn read_polls(s: &str) -> (r: Result<Vec<Poll>, RawPollTableFromStrError>)
    ensures
        r == Err::<Vec<Poll>, _>(RawPollTableFromStrError::ReaderBuilderError) <==> csv_records_of(
            s@,
        ) is None,
        r is Ok <==> (csv_records_of(s@) is Some && table_decodes(csv_records_of(s@)->0)),
        r matches Ok(polls) ==> polls_match(csv_records_of(s@)->0, polls@),
        r matches Err(RawPollTableFromStrError::DecodeError(e)) ==> csv_records_of(s@) is Some
            && error_fits(csv_records_of(s@)->0, e),
{
    match read_records(s) {
        Ok(rows) => match decode_records(&rows) {
            Ok(polls) => Ok(polls),
            Err(e) => Err(RawPollTableFromStrError::DecodeError(e)),
        },
        Err(_) => Err(RawPollTableFromStrError::ReaderBuilderError),
    }
}

/// Index of the last `c` in `s`, or -1 when there is none.
pub open spec fn last_index_of(s: Seq<char>, c: char) -> int
    decreases s.len(),
{
    if s.len() == 0 {
        -1
    } else if s.last() == c {
        s.len() - 1
    } else {
        last_index_of(s.drop_last(), c)
    }
}

/// The last component of a `/`-separated path.
pub open spec fn file_name(p: Seq<char>) -> Seq<char> {
    p.skip(last_index_of(p, '/') + 1)
}

/// The jurisdiction that a path names: its file name must be
/// `<code>.csv`, where the extension follows the last `.` and a name that
/// only starts with `.` has no extension.
pub open spec fn spec_path_jurisdiction(p: Seq<char>) -> Result<Jurisdiction, PollTableTryFromPathError> {
    let name = file_name(p);
    let d = last_index_of(name, '.');
    if name == "."@ || name == ".."@ || d <= 0 {
        Err(PollTableTryFromPathError::InvalidPathError)
    } else if name.skip(d + 1) != "csv"@ {
        Err(PollTableTryFromPathError::NotCsvError)
    } else {
        match Jurisdiction::spec_lookup(name.take(d)) {
            Some(j) => Ok(j),
            None => Err(PollTableTryFromPathError::InvalidJurisdictionError),
        }
    }
}

/// Position of the last `c` in `s`, if any.
fn find_last(s: &str, c: char) -> (r: Option<usize>)
    ensures
        r matches Some(i) ==> i as int == last_index_of(s@, c) && i < s@.len() && s@[i as int] == c,
        r is None ==> last_index_of(s@, c) == -1,
{
    let mut k = s.unicode_len();
    assert(s@.take(k as int) =~= s@);
    while k > 0
        invariant
            k <= s@.len(),
            last_index_of(s@.take(k as int), c) == last_index_of(s@, c),
        decreases k,
    {
        assert(s@.take(k as int).drop_last() =~= s@.take(k - 1));
        if s.get_char(k - 1) == c {
            return Some(k - 1);
        }
        k = k - 1;
    }
    None
}

/// The code that a file name stands for: everything before the last `.`
/// of a file name ending in `.csv`.
pub fn jurisdiction_from_path(path: &str) -> (r: Result<Jurisdiction, PollTableTryFromPathError>)
    ensures
        r == spec_path_jurisdiction(path@),
{
    let n = path.unicode_len();
    let start: usize = match find_last(path, '/') {
        Some(i) => i + 1,
        None => 0,
    };
    let name = path.substring_char(start, n);
    assert(name@ =~= file_name(path@));
    if text_equals(name, ".") || text_equals(name, "..") {
        return Err(PollTableTryFromPathError::InvalidPathError);
    }
    let d = match find_last(name, '.') {
        Some(d) => d,
        None => return Err(PollTableTryFromPathError::InvalidPathError),
    };
    if d == 0 {
        return Err(PollTableTryFromPathError::InvalidPathError);
    }
    let m = name.unicode_len();
    let ext = name.substring_char(d + 1, m);
    assert(ext@ =~= name@.skip(d + 1));
    if !text_equals(ext, "csv") {
        return Err(PollTableTryFromPathError::NotCsvError);
    }
    let stem = name.substring_char(0, d);
    assert(stem@ =~= name@.take(d as int));
    match Jurisdiction::from_code(stem) {
        Some(j) => Ok(j),
        None => Err(PollTableTryFromPathError::InvalidJurisdictionError),
    }
}

/// The polls of one jurisdiction, in the order of the source (newest
/// first by the publisher's convention).
#[derive(Debug)]
pub struct PollTable {
    polls: Vec<Poll>,
    jurisdiction: Jurisdiction,
}

/// Polls in the order of the source, without a jurisdiction.
#[derive(Debug)]
pub struct RawPollTable {
    polls: Vec<Poll>,
}

impl PollTable {
    pub closed spec fn spec_polls(&self) -> Seq<Poll> {
        self.polls@
    }

    pub closed spec fn spec_jurisdiction(&self) -> Jurisdiction {
        self.jurisdiction
    }

    /// A table of the given polls.
    pub fn new(polls: Vec<Poll>, jurisdiction: Jurisdiction) -> (r: PollTable)
        ensures
            r.spec_polls() == polls@,
            r.spec_jurisdiction() == jurisdiction,
    {
        PollTable { polls, jurisdiction }
    }

    /// Decodes a text in the format under the jurisdiction of the given
    /// code. The code is resolved before any row is read.
    pub fn from_str(s: &str, jurisdiction: &str) -> (r: Result<PollTable, PollTableFromStrError>)
        ensures
            r == Err::<PollTable, _>(PollTableFromStrError::InvalidJurisdictionError)
                <==> Jurisdiction::spec_lookup(jurisdiction@) is None,
            r == Err::<PollTable, _>(PollTableFromStrError::ReaderBuilderError) <==> (
            Jurisdiction::spec_lookup(jurisdiction@) is Some && csv_records_of(s@) is None),
            r is Ok <==> (Jurisdiction::spec_lookup(jurisdiction@) is Some && csv_records_of(
                s@,
            ) is Some && table_decodes(csv_records_of(s@)->0)),
            r matches Ok(t) ==> Jurisdiction::spec_lookup(jurisdiction@) == Some(
                t.spec_jurisdiction(),
            ) && polls_match(csv_records_of(s@)->0, t.spec_polls()),
            r matches Err(PollTableFromStrError::DecodeError(e)) ==> csv_records_of(s@) is Some
                && error_fits(csv_records_of(s@)->0, e),
    {
        let j = match Jurisdiction::from_code(jurisdiction) {
            Some(j) => j,
            None => return Err(PollTableFromStrError::InvalidJurisdictionError),
        };
        match read_polls(s) {
            Ok(polls) => Ok(PollTable { polls, jurisdiction: j }),
            Err(RawPollTableFromStrError::ReaderBuilderError) => Err(
                PollTableFromStrError::ReaderBuilderError,
            ),
            Err(RawPollTableFromStrError::DecodeError(e)) => Err(
                PollTableFromStrError::DecodeError(e),
            ),
        }
    }

    /// Decodes the text of a file under the jurisdiction that its path
    /// names. The path is checked before any row is read.
    pub fn from_path_contents(path: &str, contents: &str) -> (r: Result<
        PollTable,
        PollTableTryFromPathError,
    >)
        ensures
            spec_path_jurisdiction(path@) matches Err(e) ==> r == Err::<PollTable, _>(e),
            spec_path_jurisdiction(path@) is Ok ==> {
                &&& r == Err::<PollTable, _>(PollTableTryFromPathError::ReaderBuilderError)
                    <==> csv_records_of(contents@) is None
                &&& r is Ok <==> (csv_records_of(contents@) is Some && table_decodes(
                    csv_records_of(contents@)->0,
                ))
            },
            r matches Ok(t) ==> spec_path_jurisdiction(path@) == Ok::<_, PollTableTryFromPathError>(
                t.spec_jurisdiction(),
            ) && polls_match(csv_records_of(contents@)->0, t.spec_polls()),
            r matches Err(PollTableTryFromPathError::DecodeError(e)) ==> csv_records_of(
                contents@,
            ) is Some && error_fits(csv_records_of(contents@)->0, e),
    {
        let j = match jurisdiction_from_path(path) {
            Ok(j) => j,
            Err(e) => return Err(e),
        };
        match read_polls(contents) {
            Ok(polls) => Ok(PollTable { polls, jurisdiction: j }),
            Err(RawPollTableFromStrError::ReaderBuilderError) => Err(
                PollTableTryFromPathError::ReaderBuilderError,
            ),
            Err(RawPollTableFromStrError::DecodeError(e)) => Err(
                PollTableTryFromPathError::DecodeError(e),
            ),
        }
    }

    /// All polls, in source order.
    pub fn polls(&self) -> (r: &Vec<Poll>)
        ensures
            r@ == self.spec_polls(),
    {
        &self.polls
    }

    /// The poll at `index`, if there is one.
    pub fn poll_by_index(&self, index: usize) -> (r: Option<&Poll>)
        ensures
            index < self.spec_polls().len() ==> r == Some(&self.spec_polls()[index as int]),
            index >= self.spec_polls().len() ==> r is None,
    {
        if index < self.polls.len() {
            Some(&self.polls[index])
        } else {
            None
        }
    }

    /// The polling firm of the poll at `index`, if there is one.
    pub fn polling_firm(&self, index: usize) -> (r: Option<&String>)
        ensures
            index < self.spec_polls().len() ==> r == Some(&self.spec_polls()[index as int].polling_firm),
            index >= self.spec_polls().len() ==> r is None,
    {
        if index < self.polls.len() {
            Some(&self.polls[index].polling_firm)
        } else {
            None
        }
    }

    /// The commissioners of the poll at `index`, if there is one.
    pub fn commissioners(&self, index: usize) -> (r: Option<&PollOption<String>>)
        ensures
            index < self.spec_polls().len() ==> r == Some(&self.spec_polls()[index as int].commissioners),
            index >= self.spec_polls().len() ==> r is None,
    {
        if index < self.polls.len() {
            Some(&self.polls[index].commissioners)
        } else {
            None
        }
    }

    /// The first day of fieldwork of the poll at `index`.
    pub fn fieldwork_start(&self, index: usize) -> (r: &Date)
        requires
            index < self.spec_polls().len(),
        ensures
            *r == self.spec_polls()[index as int].fieldwork_start,
    {
        &self.polls[index].fieldwork_start
    }

    /// The last day of fieldwork of the poll at `index`.
    pub fn fieldwork_end(&self, index: usize) -> (r: &Date)
        requires
            index < self.spec_polls().len(),
        ensures
            *r == self.spec_polls()[index as int].fieldwork_end,
    {
        &self.polls[index].fieldwork_end
    }

    /// The election of the poll at `index`.
    pub fn scope(&self, index: usize) -> (r: &Scope)
        requires
            index < self.spec_polls().len(),
        ensures
            *r == self.spec_polls()[index as int].scope,
    {
        &self.polls[index].scope
    }

    /// The sample size of the poll at `index`.
    pub fn sample_size(&self, index: usize) -> (r: &PollOption<Decimal>)
        requires
            index < self.spec_polls().len(),
        ensures
            *r == self.spec_polls()[index as int].sample_size,
    {
        &self.polls[index].sample_size
    }

    /// How the sample size was obtained of the poll at `index`.
    pub fn sample_size_qualification(&self, index: usize) -> (r: &PollOption<SampleSizeQualification>)
        requires
            index < self.spec_polls().len(),
        ensures
            *r == self.spec_polls()[index as int].sample_size_qualification,
    {
        &self.polls[index].sample_size_qualification
    }

    /// The participation of the poll at `index`.
    pub fn participation(&self, index: usize) -> (r: &PollOption<Percentage>)
        requires
            index < self.spec_polls().len(),
        ensures
            *r == self.spec_polls()[index as int].participation,
    {
        &self.polls[index].participation
    }

    /// The precision of the poll at `index`.
    pub fn precision(&self, index: usize) -> (r: &PollOption<PercentageOrSeats>)
        requires
            index < self.spec_polls().len(),
        ensures
            *r == self.spec_polls()[index as int].precision,
    {
        &self.polls[index].precision
    }

    /// The party results, in column order, of the poll at `index`.
    pub fn party_results(&self, index: usize) -> (r: &Vec<(String, PollOption<PercentageOrSeats>)>)
        requires
            index < self.spec_polls().len(),
        ensures
            *r == self.spec_polls()[index as int].party_results,
    {
        &self.polls[index].party_results
    }

    /// The result of the other parties of the poll at `index`.
    pub fn other(&self, index: usize) -> (r: &PollOption<PercentageOrSeats>)
        requires
            index < self.spec_polls().len(),
        ensures
            *r == self.spec_polls()[index as int].other,
    {
        &self.polls[index].other
    }

    /// The jurisdiction of the table.
    pub fn jurisdiction(&self) -> (r: &Jurisdiction)
        ensures
            *r == self.spec_jurisdiction(),
    {
        &self.jurisdiction
    }

    /// Days from the start of fieldwork of the last poll to the end of
    /// fieldwork of the first; negative when the source puts them the
    /// other way round.
    pub fn date_range(&self) -> (r: Result<i64, DateRangeError>)
        ensures
            r == Err::<i64, _>(DateRangeError::EmptyTable) <==> self.spec_polls().len() == 0,
            r == Err::<i64, _>(DateRangeError::InvalidDate) <==> (self.spec_polls().len() > 0
                && !(self.spec_polls().first().fieldwork_end.wf()
                && self.spec_polls().last().fieldwork_start.wf())),
            r matches Ok(d) ==> d == self.spec_polls().first().fieldwork_end.spec_day_number()
                - self.spec_polls().last().fieldwork_start.spec_day_number(),
    {
        let n = self.polls.len();
        if n == 0 {
            return Err(DateRangeError::EmptyTable);
        }
        let last = self.polls[0].fieldwork_end;
        let first = self.polls[n - 1].fieldwork_start;
        if Date::new(last.year, last.month, last.day).is_none() || Date::new(
            first.year,
            first.month,
            first.day,
        ).is_none() {
            return Err(DateRangeError::InvalidDate);
        }
        Ok(last.days_since(&first))
    }
}

impl RawPollTable {
    pub closed spec fn spec_polls(&self) -> Seq<Poll> {
        self.polls@
    }

    /// A table of the given polls.
    pub fn new(polls: Vec<Poll>) -> (r: RawPollTable)
        ensures
            r.spec_polls() == polls@,
    {
        RawPollTable { polls }
    }

    /// Decodes a text in the format.
    pub fn parse(s: &str) -> (r: Result<RawPollTable, RawPollTableFromStrError>)
        ensures
            r == Err::<RawPollTable, _>(RawPollTableFromStrError::ReaderBuilderError)
                <==> csv_records_of(s@) is None,
            r is Ok <==> (csv_records_of(s@) is Some && table_decodes(csv_records_of(s@)->0)),
            r matches Ok(t) ==> polls_match(csv_records_of(s@)->0, t.spec_polls()),
            r matches Err(RawPollTableFromStrError::DecodeError(e)) ==> csv_records_of(s@) is Some
                && error_fits(csv_records_of(s@)->0, e),
    {
        match read_polls(s) {
            Ok(polls) => Ok(RawPollTable { polls }),
            Err(e) => Err(e),
        }
    }

    /// All polls, in source order.
    pub fn polls(&self) -> (r: &Vec<Poll>)
        ensures
            r@ == self.spec_polls(),
    {
        &self.polls
    }
}

impl std::str::FromStr for RawPollTable {
    type Err = RawPollTableFromStrError;

    fn from_str(s: &str) -> Result<RawPollTable, RawPollTableFromStrError> {
        RawPollTable::parse(s)
    }
}

} // verus!
