use vstd::prelude::*;
use crate::date::{iso_date_of, Date};
use crate::decimal::Decimal;
use crate::fields::{
    decode_number_option, decode_percentage_option, decode_qualification_option,
    decode_result_option, decode_scope, decode_text_option, spec_decode_number_option,
    spec_decode_percentage_option, spec_decode_qualification_option, spec_decode_result_option,
    spec_decode_scope, spec_decode_text_option, Percentage, PercentageOrSeats, PollOption,
    SampleSizeQualification, Scope,
};
use crate::text::text_equals;

verus! {

/// The columns that have a fixed header name.
#[derive(Clone, Copy, Debug, PartialEq, Eq, Structural)]
pub enum FixedColumn {
    PollingFirm,
    Commissioners,
    FieldworkStart,
    FieldworkEnd,
    Scope,
    SampleSize,
    SampleSizeQualification,
    Participation,
    Precision,
    Other,
}

/// Why a table's rows could not be decoded.
#[derive(Clone, Copy, Debug, PartialEq, Eq, Structural)]
pub enum DecodeError {
    /// The header has no column of this name.
    MissingColumn(FixedColumn),
    /// The header name at this position repeats an earlier one.
    DuplicateColumn(usize),
    /// The data row at this index (counted from 0, after the header) has
    /// another number of cells than the header.
    RowLength(usize),
    /// The cell of this data row and column does not follow its grammar.
    Field { row: usize, column: usize },
}

/// One row of a table: the metadata and the results of one opinion poll.
#[derive(Debug)]
pub struct Poll {
    pub polling_firm: String,
    pub commissioners: PollOption<String>,
    pub fieldwork_start: Date,
    pub fieldwork_end: Date,
    pub scope: Scope,
    pub sample_size: PollOption<Decimal>,
    pub sample_size_qualification: PollOption<SampleSizeQualification>,
    pub participation: PollOption<Percentage>,
    pub precision: PollOption<PercentageOrSeats>,
    /// One entry per party column, in the order of the columns.
    pub party_results: Vec<(String, PollOption<PercentageOrSeats>)>,
    pub other: PollOption<PercentageOrSeats>,
}


impl Poll {
    /// A poll with the given fields.
    pub fn new(
        polling_firm: String,
        commissioners: PollOption<String>,
        fieldwork_start: Date,
        fieldwork_end: Date,
        scope: Scope,
        sample_size: PollOption<Decimal>,
        sample_size_qualification: PollOption<SampleSizeQualification>,
        participation: PollOption<Percentage>,
        precision: PollOption<PercentageOrSeats>,
        party_results: Vec<(String, PollOption<PercentageOrSeats>)>,
        other: PollOption<PercentageOrSeats>,
    ) -> (r: Poll)
        ensures
            r.polling_firm == polling_firm,
            r.commissioners == commissioners,
            r.fieldwork_start == fieldwork_start,
            r.fieldwork_end == fieldwork_end,
            r.scope == scope,
            r.sample_size == sample_size,
            r.sample_size_qualification == sample_size_qualification,
            r.participation == participation,
            r.precision == precision,
            r.party_results == party_results,
            r.other == other,
    {
        Poll {
            polling_firm,
            commissioners,
            fieldwork_start,
            fieldwork_end,
            scope,
            sample_size,
            sample_size_qualification,
            participation,
            precision,
            party_results,
            other,
        }
    }

    /// The party results, in column order.
    pub fn party_results(&self) -> (r: &Vec<(String, PollOption<PercentageOrSeats>)>)
        ensures
            *r == self.party_results,
    {
        &self.party_results
    }
}

/// The fixed column that a header name denotes, if any.
pub open spec fn column_kind(h: Seq<char>) -> Option<FixedColumn> {
    if h == "Polling Firm"@ {
        Some(FixedColumn::PollingFirm)
    } else if h == "Commissioners"@ {
        Some(FixedColumn::Commissioners)
    } else if h == "Fieldwork Start"@ {
        Some(FixedColumn::FieldworkStart)
    } else if h == "Fieldwork End"@ {
        Some(FixedColumn::FieldworkEnd)
    } else if h == "Scope"@ {
        Some(FixedColumn::Scope)
    } else if h == "Sample Size"@ {
        Some(FixedColumn::SampleSize)
    } else if h == "Sample Size Qualification"@ {
        Some(FixedColumn::SampleSizeQualification)
    } else if h == "Participation"@ {
        Some(FixedColumn::Participation)
    } else if h == "Precision"@ {
        Some(FixedColumn::Precision)
    } else if h == "Other"@ {
        Some(FixedColumn::Other)
    } else {
        None
    }
}

/// The fixed column that a header name denotes, if any.
pub fn classify_column(h: &str) -> (r: Option<FixedColumn>)
    ensures
        r == column_kind(h@),
{
    if text_equals(h, "Polling Firm") {
        Some(FixedColumn::PollingFirm)
    } else if text_equals(h, "Commissioners") {
        Some(FixedColumn::Commissioners)
    } else if text_equals(h, "Fieldwork Start") {
        Some(FixedColumn::FieldworkStart)
    } else if text_equals(h, "Fieldwork End") {
        Some(FixedColumn::FieldworkEnd)
    } else if text_equals(h, "Scope") {
        Some(FixedColumn::Scope)
    } else if text_equals(h, "Sample Size") {
        Some(FixedColumn::SampleSize)
    } else if text_equals(h, "Sample Size Qualification") {
        Some(FixedColumn::SampleSizeQualification)
    } else if text_equals(h, "Participation") {
        Some(FixedColumn::Participation)
    } else if text_equals(h, "Precision") {
        Some(FixedColumn::Precision)
    } else if text_equals(h, "Other") {
        Some(FixedColumn::Other)
    } else {
        None
    }
}

pub open spec fn distinct_names(h: Seq<Seq<char>>) -> bool {
    forall|a: int, b: int| 0 <= a < b < h.len() ==> h[a] != h[b]
}

pub open spec fn has_column(h: Seq<Seq<char>>, c: FixedColumn) -> bool {
    exists|j: int| 0 <= j < h.len() && column_kind(#[trigger] h[j]) == Some(c)
}

/// A header names each fixed column, and no name twice.
pub open spec fn header_ok(h: Seq<Seq<char>>) -> bool {
    distinct_names(h) && forall|c: FixedColumn| has_column(h, c)
}

/// Whether a cell under a column of kind `k` (a party column when `None`)
/// follows the grammar of that column.
pub open spec fn cell_decodes(k: Option<FixedColumn>, cell: Seq<char>) -> bool {
    match k {
        None => spec_decode_result_option(cell) is Some,
        Some(FixedColumn::PollingFirm) => true,
        Some(FixedColumn::Commissioners) => true,
        Some(FixedColumn::FieldworkStart) => iso_date_of(cell) is Some,
        Some(FixedColumn::FieldworkEnd) => iso_date_of(cell) is Some,
        Some(FixedColumn::Scope) => spec_decode_scope(cell) is Some,
        Some(FixedColumn::SampleSize) => spec_decode_number_option(cell) is Some,
        Some(FixedColumn::SampleSizeQualification) => spec_decode_qualification_option(
            cell,
        ) is Some,
        Some(FixedColumn::Participation) => spec_decode_percentage_option(cell) is Some,
        Some(FixedColumn::Precision) => spec_decode_result_option(cell) is Some,
        Some(FixedColumn::Other) => spec_decode_result_option(cell) is Some,
    }
}

pub open spec fn text_option_view(o: PollOption<String>) -> PollOption<Seq<char>> {
    match o {
        PollOption::NotAvailable => PollOption::NotAvailable,
        PollOption::Available(t) => PollOption::Available(t@),
    }
}

pub open spec fn party_view(p: Seq<(String, PollOption<PercentageOrSeats>)>) -> Seq<
    (Seq<char>, PollOption<PercentageOrSeats>),
> {
    p.map_values(|e: (String, PollOption<PercentageOrSeats>)| (e.0@, e.1))
}

/// Whether the field of `p` for column `k` is what the cell decodes to.
pub open spec fn cell_matches(k: FixedColumn, cell: Seq<char>, p: Poll) -> bool {
    match k {
        FixedColumn::PollingFirm => p.polling_firm@ == cell,
        FixedColumn::Commissioners => text_option_view(p.commissioners) == spec_decode_text_option(
            cell,
        ),
        FixedColumn::FieldworkStart => p.fieldwork_start.wf() && iso_date_of(cell) == Some(
            p.fieldwork_start.triple(),
        ),
        FixedColumn::FieldworkEnd => p.fieldwork_end.wf() && iso_date_of(cell) == Some(
            p.fieldwork_end.triple(),
        ),
        FixedColumn::Scope => spec_decode_scope(cell) == Some(p.scope),
        FixedColumn::SampleSize => spec_decode_number_option(cell) == Some(p.sample_size),
        FixedColumn::SampleSizeQualification => spec_decode_qualification_option(cell) == Some(
            p.sample_size_qualification,
        ),
        FixedColumn::Participation => spec_decode_percentage_option(cell) == Some(
            p.participation,
        ),
        FixedColumn::Precision => spec_decode_result_option(cell) == Some(p.precision),
        FixedColumn::Other => spec_decode_result_option(cell) == Some(p.other),
    }
}

/// The party results of the first `j` columns: each column that is not a
/// fixed one, under its header name, in column order.
pub open spec fn spec_parties(h: Seq<Seq<char>>, cells: Seq<Seq<char>>, j: int) -> Seq<
    (Seq<char>, PollOption<PercentageOrSeats>),
>
    decreases j,
{
    if j <= 0 {
        Seq::empty()
    } else if column_kind(h[j - 1]) is None {
        spec_parties(h, cells, j - 1).push(
            (h[j - 1], spec_decode_result_option(cells[j - 1])->0),
        )
    } else {
        spec_parties(h, cells, j - 1)
    }
}

/// Every cell of the row follows the grammar of its column.
pub open spec fn row_decodes(h: Seq<Seq<char>>, cells: Seq<Seq<char>>) -> bool {
    forall|j: int| 0 <= j < h.len() ==> cell_decodes(column_kind(h[j]), #[trigger] cells[j])
}

/// Column `c` is the first whose cell does not follow its grammar.
pub open spec fn first_bad_cell(h: Seq<Seq<char>>, cells: Seq<Seq<char>>, c: int) -> bool {
    0 <= c < h.len() && !cell_decodes(column_kind(h[c]), cells[c]) && forall|k: int|
        0 <= k < c ==> cell_decodes(column_kind(h[k]), #[trigger] cells[k])
}

/// `p` holds what the cells of the row decode to.
pub open spec fn poll_matches(h: Seq<Seq<char>>, cells: Seq<Seq<char>>, p: Poll) -> bool {
    &&& forall|j: int|
        0 <= j < h.len() && column_kind(#[trigger] h[j]) is Some ==> cell_matches(
            column_kind(h[j])->0,
            cells[j],
            p,
        )
    &&& party_view(p.party_results@) == spec_parties(h, cells, h.len() as int)
}

/// Whether some header names column `c`.
fn column_present(h: &Vec<String>, c: FixedColumn) -> (r: bool)
    ensures
        r == has_column(h.deep_view(), c),
{
    let ghost hv = h.deep_view();
    let mut j: usize = 0;
    while j < h.len()
        invariant
            hv == h.deep_view(),
            j <= h@.len(),
            forall|k: int| 0 <= k < j ==> column_kind(#[trigger] hv[k]) != Some(c),
        decreases h@.len() - j,
    {
        if let Some(k) = classify_column(h[j].as_str()) {
            if k == c {
                assert(column_kind(hv[j as int]) == Some(c));
                return true;
            }
        }
        j = j + 1;
    }
    false
}

/// Checks that the header names every fixed column, and no name twice.
pub fn check_header(h: &Vec<String>) -> (r: Result<(), DecodeError>)
    ensures
        r is Ok <==> header_ok(h.deep_view()),
        r matches Err(DecodeError::DuplicateColumn(j)) ==> j < h@.len() && exists|i: int|
            0 <= i < j && h.deep_view()[i] == h.deep_view()[j as int],
        r matches Err(DecodeError::MissingColumn(c)) ==> distinct_names(h.deep_view())
            && !has_column(h.deep_view(), c),
        r matches Err(e) ==> (e is DuplicateColumn || e is MissingColumn),
{
    let ghost hv = h.deep_view();
    let mut j: usize = 0;
    while j < h.len()
        invariant
            hv == h.deep_view(),
            j <= h@.len(),
            forall|a: int, b: int| 0 <= a < b < j ==> hv[a] != hv[b],
        decreases h@.len() - j,
    {
        let mut i: usize = 0;
        while i < j
            invariant
                hv == h.deep_view(),
                i <= j < h@.len(),
                forall|a: int| 0 <= a < i ==> hv[a] != hv[j as int],
                forall|a: int, b: int| 0 <= a < b < j ==> hv[a] != hv[b],
            decreases j - i,
        {
            assert(hv[i as int] == h@[i as int]@ && hv[j as int] == h@[j as int]@);
            if text_equals(h[i].as_str(), h[j].as_str()) {
                assert(!distinct_names(hv));
                return Err(DecodeError::DuplicateColumn(j));
            }
            i = i + 1;
        }
        j = j + 1;
    }
    assert(distinct_names(hv));
    if !column_present(h, FixedColumn::PollingFirm) {
        return Err(DecodeError::MissingColumn(FixedColumn::PollingFirm));
    }
    if !column_present(h, FixedColumn::Commissioners) {
        return Err(DecodeError::MissingColumn(FixedColumn::Commissioners));
    }
    if !column_present(h, FixedColumn::FieldworkStart) {
        return Err(DecodeError::MissingColumn(FixedColumn::FieldworkStart));
    }
    if !column_present(h, FixedColumn::FieldworkEnd) {
        return Err(DecodeError::MissingColumn(FixedColumn::FieldworkEnd));
    }
    if !column_present(h, FixedColumn::Scope) {
        return Err(DecodeError::MissingColumn(FixedColumn::Scope));
    }
    if !column_present(h, FixedColumn::SampleSize) {
        return Err(DecodeError::MissingColumn(FixedColumn::SampleSize));
    }
    if !column_present(h, FixedColumn::SampleSizeQualification) {
        return Err(DecodeError::MissingColumn(FixedColumn::SampleSizeQualification));
    }
    if !column_present(h, FixedColumn::Participation) {
        return Err(DecodeError::MissingColumn(FixedColumn::Participation));
    }
    if !column_present(h, FixedColumn::Precision) {
        return Err(DecodeError::MissingColumn(FixedColumn::Precision));
    }
    if !column_present(h, FixedColumn::Other) {
        return Err(DecodeError::MissingColumn(FixedColumn::Other));
    }
    assert forall|c: FixedColumn| has_column(hv, c) by {
        match c {
            FixedColumn::PollingFirm => {},
            FixedColumn::Commissioners => {},
            FixedColumn::FieldworkStart => {},
            FixedColumn::FieldworkEnd => {},
            FixedColumn::Scope => {},
            FixedColumn::SampleSize => {},
            FixedColumn::SampleSizeQualification => {},
            FixedColumn::Participation => {},
            FixedColumn::Precision => {},
            FixedColumn::Other => {},
        }
    }
    Ok(())
}

/// Two columns of one fixed kind have the same header name.
proof fn lemma_kind_names(a: Seq<char>, b: Seq<char>)
    requires
        column_kind(a) is Some,
        column_kind(a) == column_kind(b),
    ensures
        a == b,
{
}

/// Decodes data row number `row` under header `h`: each fixed column by
/// its own grammar, every other column as a party result.
pub fn decode_row(h: &Vec<String>, cells: &Vec<String>, row: usize) -> (r: Result<Poll, DecodeError>)
    requires
        header_ok(h.deep_view()),
        cells@.len() == h@.len(),
    ensures
        r is Ok <==> row_decodes(h.deep_view(), cells.deep_view()),
        r matches Ok(p) ==> poll_matches(h.deep_view(), cells.deep_view(), p),
        r matches Err(e) ==> e matches DecodeError::Field { row: rr, column: c } && rr == row
            && first_bad_cell(h.deep_view(), cells.deep_view(), c as int),
{
    let ghost hv = h.deep_view();
    let ghost cv = cells.deep_view();
    let mut polling_firm: Option<String> = None;
    let mut commissioners: Option<PollOption<String>> = None;
    let mut fieldwork_start: Option<Date> = None;
    let mut fieldwork_end: Option<Date> = None;
    let mut scope: Option<Scope> = None;
    let mut sample_size: Option<PollOption<Decimal>> = None;
    let mut sample_size_qualification: Option<PollOption<SampleSizeQualification>> = None;
    let mut participation: Option<PollOption<Percentage>> = None;
    let mut precision: Option<PollOption<PercentageOrSeats>> = None;
    let mut other: Option<PollOption<PercentageOrSeats>> = None;
    let mut party_results: Vec<(String, PollOption<PercentageOrSeats>)> = Vec::new();
    let mut j: usize = 0;
    while j < h.len()
        invariant
            hv == h.deep_view(),
            cv == cells.deep_view(),
            header_ok(hv),
            cells@.len() == h@.len(),
            j <= h@.len(),
            forall|k: int| 0 <= k < j ==> cell_decodes(column_kind(hv[k]), #[trigger] cv[k]),
            forall|k: int|
                0 <= k < j && column_kind(#[trigger] hv[k]) == Some(FixedColumn::PollingFirm) ==> (polling_firm matches Some(v) && v@ == cv[k]),
            forall|k: int|
                0 <= k < j && column_kind(#[trigger] hv[k]) == Some(FixedColumn::Commissioners) ==> (commissioners matches Some(v) && text_option_view(v) == spec_decode_text_option(cv[k])),
            forall|k: int|
                0 <= k < j && column_kind(#[trigger] hv[k]) == Some(FixedColumn::FieldworkStart) ==> (fieldwork_start matches Some(v) && v.wf() && iso_date_of(cv[k]) == Some(v.triple())),
            forall|k: int|
                0 <= k < j && column_kind(#[trigger] hv[k]) == Some(FixedColumn::FieldworkEnd) ==> (fieldwork_end matches Some(v) && v.wf() && iso_date_of(cv[k]) == Some(v.triple())),
            forall|k: int|
                0 <= k < j && column_kind(#[trigger] hv[k]) == Some(FixedColumn::Scope) ==> (scope matches Some(v) && spec_decode_scope(cv[k]) == Some(v)),
            forall|k: int|
                0 <= k < j && column_kind(#[trigger] hv[k]) == Some(FixedColumn::SampleSize) ==> (sample_size matches Some(v) && spec_decode_number_option(cv[k]) == Some(v)),
            forall|k: int|
                0 <= k < j && column_kind(#[trigger] hv[k]) == Some(FixedColumn::SampleSizeQualification) ==> (sample_size_qualification matches Some(v) && spec_decode_qualification_option(cv[k]) == Some(v)),
            forall|k: int|
                0 <= k < j && column_kind(#[trigger] hv[k]) == Some(FixedColumn::Participation) ==> (participation matches Some(v) && spec_decode_percentage_option(cv[k]) == Some(v)),
            forall|k: int|
                0 <= k < j && column_kind(#[trigger] hv[k]) == Some(FixedColumn::Precision) ==> (precision matches Some(v) && spec_decode_result_option(cv[k]) == Some(v)),
            forall|k: int|
                0 <= k < j && column_kind(#[trigger] hv[k]) == Some(FixedColumn::Other) ==> (other matches Some(v) && spec_decode_result_option(cv[k]) == Some(v)),
            party_view(party_results@) == spec_parties(hv, cv, j as int),
        decreases h@.len() - j,
    {
        let cell = cells[j].as_str();
        let ghost hj = hv[j as int];
        assert(hj == h@[j as int]@ && cv[j as int] == cells@[j as int]@);
        assert forall|k: int| 0 <= k < j && column_kind(hv[k]) == column_kind(hj) && column_kind(hj) is Some implies false by {
            lemma_kind_names(hv[k], hj);
        }
        match classify_column(h[j].as_str()) {
            Some(FixedColumn::PollingFirm) => {
                polling_firm = Some(cell.to_owned());
            },
            Some(FixedColumn::Commissioners) => {
                commissioners = Some(decode_text_option(cell));
            },
            Some(FixedColumn::FieldworkStart) => {
                match Date::parse(cell) {
                    Some(d) => fieldwork_start = Some(d),
                    None => return Err(DecodeError::Field { row, column: j }),
                }
            },
            Some(FixedColumn::FieldworkEnd) => {
                match Date::parse(cell) {
                    Some(d) => fieldwork_end = Some(d),
                    None => return Err(DecodeError::Field { row, column: j }),
                }
            },
            Some(FixedColumn::Scope) => {
                match decode_scope(cell) {
                    Some(v) => scope = Some(v),
                    None => return Err(DecodeError::Field { row, column: j }),
                }
            },
            Some(FixedColumn::SampleSize) => {
                match decode_number_option(cell) {
                    Some(v) => sample_size = Some(v),
                    None => return Err(DecodeError::Field { row, column: j }),
                }
            },
            Some(FixedColumn::SampleSizeQualification) => {
                match decode_qualification_option(cell) {
                    Some(v) => sample_size_qualification = Some(v),
                    None => return Err(DecodeError::Field { row, column: j }),
                }
            },
            Some(FixedColumn::Participation) => {
                match decode_percentage_option(cell) {
                    Some(v) => participation = Some(v),
                    None => return Err(DecodeError::Field { row, column: j }),
                }
            },
            Some(FixedColumn::Precision) => {
                match decode_result_option(cell) {
                    Some(v) => precision = Some(v),
                    None => return Err(DecodeError::Field { row, column: j }),
                }
            },
            Some(FixedColumn::Other) => {
                match decode_result_option(cell) {
                    Some(v) => other = Some(v),
                    None => return Err(DecodeError::Field { row, column: j }),
                }
            },
            None => {
                match decode_result_option(cell) {
                    Some(v) => {
                        let name = h[j].clone();
                        party_results.push((name, v));
                        proof {
                            assert(party_view(party_results@) =~= spec_parties(hv, cv, j as int).push((hj, v)));
                        }
                    },
                    None => return Err(DecodeError::Field { row, column: j }),
                }
            },
        }
        j = j + 1;
    }
    proof {
        assert(hv.len() == h@.len());
        assert(has_column(hv, FixedColumn::PollingFirm));
        assert(has_column(hv, FixedColumn::Commissioners));
        assert(has_column(hv, FixedColumn::FieldworkStart));
        assert(has_column(hv, FixedColumn::FieldworkEnd));
        assert(has_column(hv, FixedColumn::Scope));
        assert(has_column(hv, FixedColumn::SampleSize));
        assert(has_column(hv, FixedColumn::SampleSizeQualification));
        assert(has_column(hv, FixedColumn::Participation));
        assert(has_column(hv, FixedColumn::Precision));
        assert(has_column(hv, FixedColumn::Other));
    }
    Ok(Poll {
        polling_firm: polling_firm.unwrap(),
        commissioners: commissioners.unwrap(),
        fieldwork_start: fieldwork_start.unwrap(),
        fieldwork_end: fieldwork_end.unwrap(),
        scope: scope.unwrap(),
        sample_size: sample_size.unwrap(),
        sample_size_qualification: sample_size_qualification.unwrap(),
        participation: participation.unwrap(),
        precision: precision.unwrap(),
        other: other.unwrap(),
        party_results,
    })
}

/// A row whose scope cell is not a scope fails to decode; no scope is
/// made up for it.
pub proof fn lemma_bad_scope_fails_row(h: Seq<Seq<char>>, cells: Seq<Seq<char>>, j: int)
    requires
        0 <= j < h.len(),
        cells.len() == h.len(),
        column_kind(h[j]) == Some(FixedColumn::Scope),
        spec_decode_scope(cells[j]) is None,
    ensures
        !row_decodes(h, cells),
{
    assert(!cell_decodes(column_kind(h[j]), cells[j]));
}

} // verus!
