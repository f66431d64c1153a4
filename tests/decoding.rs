use europe_elects_csv::date::Date;
use europe_elects_csv::decimal::Decimal;
use europe_elects_csv::fields::{
    decode_number_option, decode_percentage_option, decode_percentage_or_seats,
    decode_qualification_option, decode_result_option, decode_scope, decode_text_option,
};
use europe_elects_csv::{
    init_jurisdiction, jurisdiction_from_path, DateRangeError, DecodeError, FixedColumn,
    Jurisdiction, Percentage, PercentageOrSeats, PollOption, PollTable, PollTableFromStrError,
    PollTableTryFromPathError, RawPollTable, RawPollTableFromStrError, SampleSizeQualification,
    Scope, Seats,
};
use std::str::FromStr;

const HEADER: &str = "Polling Firm,Commissioners,Fieldwork Start,Fieldwork End,Scope,Sample Size,Sample Size Qualification,Participation,Precision,First Party,Second Party,Other";

fn dec(negative: bool, mantissa: u64, scale: usize) -> Decimal {
    Decimal { negative, mantissa, scale }
}

fn pct(mantissa: u64) -> PollOption<PercentageOrSeats> {
    PollOption::Available(PercentageOrSeats::Percentage(Percentage(dec(false, mantissa, 0))))
}

#[test]
fn end_to_end_one_row() {
    let src = format!(
        "{}\nEpic Polling,Not Available,2024-03-06,2024-03-08,National,2054,Provided,N/A,1%,30%,40%,5%",
        HEADER
    );
    let table = PollTable::from_str(&src, "de").unwrap();
    assert_eq!(*table.jurisdiction(), Jurisdiction::Germany);
    assert_eq!(table.polls().len(), 1);
    assert_eq!(table.polling_firm(0).unwrap(), "Epic Polling");
    assert!(matches!(table.commissioners(0), Some(PollOption::NotAvailable)));
    assert_eq!(*table.fieldwork_start(0), Date::new(2024, 3, 6).unwrap());
    assert_eq!(*table.fieldwork_end(0), Date::new(2024, 3, 8).unwrap());
    assert_eq!(*table.scope(0), Scope::National);
    assert_eq!(*table.sample_size(0), PollOption::Available(dec(false, 2054, 0)));
    assert_eq!(
        *table.sample_size_qualification(0),
        PollOption::Available(SampleSizeQualification::Provided)
    );
    assert_eq!(*table.participation(0), PollOption::NotAvailable);
    assert_eq!(*table.precision(0), pct(1));
    let parties = table.party_results(0);
    assert_eq!(parties.len(), 2);
    assert_eq!(parties[0].0, "First Party");
    assert_eq!(parties[0].1, pct(30));
    assert_eq!(parties[1].0, "Second Party");
    assert_eq!(parties[1].1, pct(40));
    assert_eq!(*table.other(0), pct(5));
    assert!(table.polling_firm(1).is_none());
    assert!(table.poll_by_index(1).is_none());
}

#[test]
fn date_range_of_two_rows() {
    let src = format!(
        "{}\nA,B,2024-03-07,2024-03-08,National,100,Provided,50%,2%,30%,40%,5%\nC,D,2024-03-06,2024-03-07,European,N/A,N/A,N/A,N/A,1,2,3",
        HEADER
    );
    let table = PollTable::from_str(&src, "fr").unwrap();
    assert_eq!(table.date_range(), Ok(2));
}

#[test]
fn date_range_of_empty_table_is_an_error() {
    let table = PollTable::from_str(HEADER, "fr").unwrap();
    assert_eq!(table.polls().len(), 0);
    assert_eq!(table.date_range(), Err(DateRangeError::EmptyTable));
}

#[test]
fn date_range_may_be_negative() {
    let src = format!(
        "{}\nA,B,2024-03-01,2024-03-02,National,100,Provided,50%,2%,30%,40%,5%\nC,D,2024-03-10,2024-03-11,National,100,Provided,50%,2%,30%,40%,5%",
        HEADER
    );
    let table = PollTable::from_str(&src, "fr").unwrap();
    assert_eq!(table.date_range(), Ok(-8));
}

#[test]
fn malformed_scope_fails_row() {
    let src = format!(
        "{}\nEpic Polling,X,2024-03-06,2024-03-08,Regional,2054,Provided,N/A,1%,30%,40%,5%",
        HEADER
    );
    assert_eq!(
        PollTable::from_str(&src, "de").unwrap_err(),
        PollTableFromStrError::DecodeError(DecodeError::Field { row: 0, column: 4 })
    );
    assert!(decode_scope("Regional").is_none());
}

#[test]
fn jurisdiction_codes_resolve() {
    let gb = Jurisdiction::from_code("gb").unwrap();
    let nir = Jurisdiction::from_code("gb-nir").unwrap();
    assert_eq!(gb, Jurisdiction::UKGreatBritain);
    assert_eq!(nir, Jurisdiction::UKNorthernIreland);
    assert_ne!(gb, nir);
    assert!(Jurisdiction::from_code("xe").is_none());
    assert!(Jurisdiction::from_code("us").is_none());
    assert_eq!(Jurisdiction::from_code("gb-nir-E"), Some(Jurisdiction::UKNorthernIrelandEuropean));
    assert_eq!(Jurisdiction::from_code("gb-nir-N"), Some(Jurisdiction::UKNorthernIrelandNational));
    assert!(Jurisdiction::from_code("GB").is_none());
    assert!(Jurisdiction::from_code("gb-nir-e").is_none());
}

#[test]
fn unknown_codes_share_one_failure() {
    assert_eq!(
        PollTable::from_str(HEADER, "xe").unwrap_err(),
        PollTableFromStrError::InvalidJurisdictionError
    );
    assert_eq!(
        PollTable::from_str(HEADER, "us").unwrap_err(),
        PollTableFromStrError::InvalidJurisdictionError
    );
    assert_eq!(jurisdiction_from_path("xe.csv"), Err(PollTableTryFromPathError::InvalidJurisdictionError));
    assert_eq!(jurisdiction_from_path("us.csv"), Err(PollTableTryFromPathError::InvalidJurisdictionError));
    assert_eq!(jurisdiction_from_path("us"), Err(PollTableTryFromPathError::InvalidPathError));
}

#[test]
fn code_table_round_trips() {
    let table = init_jurisdiction();
    assert_eq!(table.len(), 49);
    for (code, j) in table.iter() {
        assert_eq!(Jurisdiction::from_code(code), Some(*j));
        assert_eq!(j.code(), code.as_str());
    }
    for (i, (_, a)) in table.iter().enumerate() {
        for (_, b) in table.iter().skip(i + 1) {
            assert_ne!(a, b);
        }
    }
}

#[test]
fn paths_name_jurisdictions() {
    assert_eq!(jurisdiction_from_path("gb.csv"), Ok(Jurisdiction::UKGreatBritain));
    assert_eq!(jurisdiction_from_path("data/polls/gb-nir.csv"), Ok(Jurisdiction::UKNorthernIreland));
    assert_eq!(jurisdiction_from_path("hu.txt"), Err(PollTableTryFromPathError::NotCsvError));
    assert_eq!(jurisdiction_from_path("dir/.csv"), Err(PollTableTryFromPathError::InvalidPathError));
    assert_eq!(jurisdiction_from_path("dir/"), Err(PollTableTryFromPathError::InvalidPathError));
    assert_eq!(jurisdiction_from_path(".."), Err(PollTableTryFromPathError::InvalidPathError));
}

#[test]
fn from_path_contents_checks_path_first() {
    let src = format!(
        "{}\nEpic Polling,X,2024-03-06,2024-03-08,National,2054,Provided,N/A,1%,30%,40%,5%",
        HEADER
    );
    let t = PollTable::from_path_contents("pl.csv", &src).unwrap();
    assert_eq!(*t.jurisdiction(), Jurisdiction::Poland);
    assert_eq!(
        PollTable::from_path_contents("pl.json", "not,a\ntable").unwrap_err(),
        PollTableTryFromPathError::NotCsvError
    );
    assert_eq!(
        PollTable::from_path_contents("pl.csv", "a,b\n1\n").unwrap_err(),
        PollTableTryFromPathError::ReaderBuilderError
    );
}

#[test]
fn sentinels_are_unavailable_everywhere() {
    for s in ["Not Available", "N/A"] {
        assert!(matches!(decode_text_option(s), PollOption::NotAvailable));
        assert_eq!(decode_number_option(s), Some(PollOption::NotAvailable));
        assert_eq!(decode_qualification_option(s), Some(PollOption::NotAvailable));
        assert_eq!(decode_percentage_option(s), Some(PollOption::NotAvailable));
        assert_eq!(decode_result_option(s), Some(PollOption::NotAvailable));
    }
    assert!(decode_result_option("not available").is_none());
    assert!(decode_result_option(" N/A").is_none());
}

#[test]
fn percent_sign_decides_unit() {
    assert_eq!(
        decode_percentage_or_seats("30%"),
        Some(PercentageOrSeats::Percentage(Percentage(dec(false, 30, 0))))
    );
    assert_eq!(
        decode_percentage_or_seats("12.5%"),
        Some(PercentageOrSeats::Percentage(Percentage(dec(false, 125, 1))))
    );
    assert_eq!(
        decode_percentage_or_seats("50%%"),
        Some(PercentageOrSeats::Percentage(Percentage(dec(false, 50, 0))))
    );
    assert_eq!(decode_percentage_or_seats("12"), Some(PercentageOrSeats::Seats(Seats(dec(false, 12, 0)))));
    assert!(decode_percentage_or_seats("5%0").is_none());
    assert!(decode_percentage_or_seats("%").is_none());
    assert_eq!(PercentageOrSeats::Seats(Seats(dec(false, 7, 0))).value(), dec(false, 7, 0));
}

#[test]
fn unrecognised_text_fails() {
    for s in ["abc", "", "Regional", "provided", "1e5", "inf"] {
        assert!(decode_scope(s).is_none());
        assert!(decode_number_option(s).is_none());
        assert!(decode_qualification_option(s).is_none());
        assert!(decode_percentage_option(s).is_none());
        assert!(decode_result_option(s).is_none());
    }
    assert_eq!(
        decode_qualification_option("Estimated/Assumed"),
        Some(PollOption::Available(SampleSizeQualification::EstimatedAssumed))
    );
    assert_eq!(decode_scope("European"), Some(Scope::European));
}

#[test]
fn row_of_literals_round_trips() {
    let src = format!(
        "{}\nFirm,The Daily Snail,2023-12-31,2024-01-02,European,1000.5,Estimated/Assumed,61.25%,3,12,0.5%,-1.5",
        HEADER
    );
    let raw = RawPollTable::from_str(&src).unwrap();
    let p = &raw.polls()[0];
    assert_eq!(p.polling_firm, "Firm");
    assert!(matches!(&p.commissioners, PollOption::Available(c) if c == "The Daily Snail"));
    assert_eq!(p.fieldwork_start, Date::new(2023, 12, 31).unwrap());
    assert_eq!(p.fieldwork_end, Date::new(2024, 1, 2).unwrap());
    assert_eq!(p.scope, Scope::European);
    assert_eq!(p.sample_size, PollOption::Available(dec(false, 10005, 1)));
    assert_eq!(p.sample_size_qualification, PollOption::Available(SampleSizeQualification::EstimatedAssumed));
    assert_eq!(p.participation, PollOption::Available(Percentage(dec(false, 6125, 2))));
    assert_eq!(p.precision, PollOption::Available(PercentageOrSeats::Seats(Seats(dec(false, 3, 0)))));
    assert_eq!(p.party_results()[0].1, PollOption::Available(PercentageOrSeats::Seats(Seats(dec(false, 12, 0)))));
    assert_eq!(p.party_results()[1].1, PollOption::Available(PercentageOrSeats::Percentage(Percentage(dec(false, 5, 1)))));
    assert_eq!(p.other, PollOption::Available(PercentageOrSeats::Seats(Seats(dec(true, 15, 1)))));
}

#[test]
fn decimal_grammar() {
    assert_eq!(Decimal::parse("2054"), Some(dec(false, 2054, 0)));
    assert_eq!(Decimal::parse("+1.50"), Some(dec(false, 150, 2)));
    assert_eq!(Decimal::parse("-0.5"), Some(dec(true, 5, 1)));
    assert_eq!(Decimal::parse(".5"), Some(dec(false, 5, 1)));
    assert_eq!(Decimal::parse("5."), Some(dec(false, 5, 0)));
    assert_eq!(Decimal::parse("18446744073709551615"), Some(dec(false, u64::MAX, 0)));
    assert_eq!(Decimal::parse("18446744073709551616"), None);
    assert_eq!(Decimal::parse("."), None);
    assert_eq!(Decimal::parse("-"), None);
    assert_eq!(Decimal::parse("1.2.3"), None);
    assert_eq!(Decimal::parse(" 1"), None);
}

#[test]
fn percentage_decoder_strips_trailing_sign() {
    assert_eq!(decode_percentage_option("45%"), Some(PollOption::Available(Percentage(dec(false, 45, 0)))));
    assert_eq!(decode_percentage_option("45"), Some(PollOption::Available(Percentage(dec(false, 45, 0)))));
    assert_eq!(Percentage(dec(false, 45, 0)).value(), dec(false, 45, 0));
}

#[test]
fn dates_parse_and_count() {
    let d = Date::parse("2024-03-06").unwrap();
    assert_eq!((d.year, d.month, d.day), (2024, 3, 6));
    assert!(Date::parse("2024-02-30").is_none());
    assert!(Date::parse("06/03/2024").is_none());
    assert_eq!(Date::parse("2024-02-29"), Date::new(2024, 2, 29));
    assert!(Date::new(2023, 2, 29).is_none());
    assert!(Date::new(2024, 13, 1).is_none());
    let a = Date::new(2024, 3, 8).unwrap();
    let b = Date::new(2024, 3, 6).unwrap();
    assert_eq!(a.days_since(&b), 2);
    assert_eq!(b.days_since(&a), -2);
    assert_eq!(Date::new(2025, 1, 1).unwrap().days_since(&Date::new(2024, 1, 1).unwrap()), 366);
    assert_eq!(Date::new(1970, 1, 1).unwrap().days_since(&Date::new(1, 1, 1).unwrap()), 719_162);
}

#[test]
fn header_faults() {
    let missing = "Polling Firm,Commissioners\nA,B";
    assert_eq!(
        RawPollTable::from_str(missing).unwrap_err(),
        RawPollTableFromStrError::DecodeError(DecodeError::MissingColumn(FixedColumn::FieldworkStart))
    );
    let dup = format!("{},First Party\n", HEADER);
    assert_eq!(
        RawPollTable::from_str(&dup).unwrap_err(),
        RawPollTableFromStrError::DecodeError(DecodeError::DuplicateColumn(12))
    );
    assert_eq!(
        RawPollTable::from_str("").unwrap_err(),
        RawPollTableFromStrError::DecodeError(DecodeError::MissingColumn(FixedColumn::PollingFirm))
    );
    assert_eq!(
        RawPollTable::from_str("a,b\n1\n").unwrap_err(),
        RawPollTableFromStrError::ReaderBuilderError
    );
}

#[test]
fn quoted_cells_are_unquoted() {
    let src = format!(
        "{}\n\"Firm, Inc.\",X,2024-03-06,2024-03-08,National,2054,Provided,N/A,1%,30%,40%,5%",
        HEADER
    );
    let raw = RawPollTable::from_str(&src).unwrap();
    assert_eq!(raw.polls()[0].polling_firm, "Firm, Inc.");
}

#[test]
fn bad_date_is_a_field_error() {
    let src = format!(
        "{}\nA,B,2024-03-06,2024-13-08,National,2054,Provided,N/A,1%,30%,40%,5%",
        HEADER
    );
    assert_eq!(
        RawPollTable::from_str(&src).unwrap_err(),
        RawPollTableFromStrError::DecodeError(DecodeError::Field { row: 0, column: 3 })
    );
}

#[test]
fn poll_option_accessors() {
    let a: PollOption<u8> = PollOption::Available(3);
    let n: PollOption<u8> = PollOption::NotAvailable;
    assert!(a.is_ok());
    assert!(!n.is_ok());
    assert_eq!(*a.poll_unwrap(), 3);
}

#[test]
fn tables_built_from_polls() {
    let raw = RawPollTable::new(Vec::new());
    assert_eq!(raw.polls().len(), 0);
    let t = PollTable::new(Vec::new(), Jurisdiction::Malta);
    assert_eq!(*t.jurisdiction(), Jurisdiction::Malta);
    assert_eq!(Jurisdiction::Malta.code(), "mt");
}
