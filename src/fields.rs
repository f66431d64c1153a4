use vstd::prelude::*;
use crate::decimal::{lemma_non_numeric_start, spec_parse_decimal, Decimal};
use crate::text::{text_contains, text_equals, trim_end_char, trim_end_matching};

verus! {

/// The value of an optional column: either given, or explicitly marked as
/// unavailable in the source.
#[derive(Clone, Copy, Debug, PartialEq, Eq)]
pub enum PollOption<T> {
    /// The source marks the value as not available or not provided.
    NotAvailable,
    /// The value given in the source.
    Available(T),
}

impl<T> PollOption<T> {
    /// The value held; only called on a value that is present.
    pub fn poll_unwrap(&self) -> (r: &T)
        requires
            self is Available,
        ensures
            *self == PollOption::Available(*r),
    {
        match self {
            PollOption::Available(val) => val,
            PollOption::NotAvailable => {
                proof {
                    assert(false);
                }
                unreached()
            },
        }
    }

    /// Whether a value is present.
    pub fn is_ok(&self) -> (r: bool)
        ensures
            r == (self is Available),
    {
        match self {
            PollOption::Available(_) => true,
            PollOption::NotAvailable => false,
        }
    }
}

/// The election a poll is about.
#[derive(Clone, Copy, Debug, PartialEq, Eq, Structural)]
pub enum Scope {
    National,
    European,
}

/// How the sample size of a poll was obtained.
#[derive(Clone, Copy, Debug, PartialEq, Eq, Structural)]
pub enum SampleSizeQualification {
    Provided,
    EstimatedAssumed,
}

/// A share of the vote; its cell may end in `%`.
#[derive(Clone, Copy, Debug, PartialEq, Eq, Structural)]
pub struct Percentage(pub Decimal);

impl Percentage {
    /// The number written before the `%`.
    pub fn value(&self) -> (r: Decimal)
        ensures
            r == self.0,
    {
        self.0
    }
}

/// A number of parliamentary seats, written without a `%`.
#[derive(Clone, Copy, Debug, PartialEq, Eq, Structural)]
pub struct Seats(pub Decimal);

impl Seats {
    /// The number of seats.
    pub fn value(&self) -> (r: Decimal)
        ensures
            r == self.0,
    {
        self.0
    }
}

/// A result told apart by the presence of `%` in its text.
#[derive(Clone, Copy, Debug, PartialEq, Eq, Structural)]
pub enum PercentageOrSeats {
    Percentage(Percentage),
    Seats(Seats),
}

impl PercentageOrSeats {
    /// The number, whichever unit it is in.
    pub fn value(&self) -> (r: Decimal)
        ensures
            r == match *self {
                PercentageOrSeats::Percentage(p) => p.0,
                PercentageOrSeats::Seats(s) => s.0,
            },
    {
        match self {
            PercentageOrSeats::Percentage(val) => val.value(),
            PercentageOrSeats::Seats(val) => val.value(),
        }
    }
}

/// The two spellings that mark a value as unavailable.
pub open spec fn is_sentinel(s: Seq<char>) -> bool {
    s == "Not Available"@ || s == "N/A"@
}

pub open spec fn spec_decode_scope(s: Seq<char>) -> Option<Scope> {
    if s == "National"@ {
        Some(Scope::National)
    } else if s == "European"@ {
        Some(Scope::European)
    } else {
        None
    }
}

pub open spec fn spec_decode_qualification(s: Seq<char>) -> Option<SampleSizeQualification> {
    if s == "Provided"@ {
        Some(SampleSizeQualification::Provided)
    } else if s == "Estimated/Assumed"@ {
        Some(SampleSizeQualification::EstimatedAssumed)
    } else {
        None
    }
}

pub open spec fn spec_decode_percentage(s: Seq<char>) -> Option<Percentage> {
    match spec_parse_decimal(trim_end_char(s, '%')) {
        Some(d) => Some(Percentage(d)),
        None => None,
    }
}

pub open spec fn spec_decode_percentage_or_seats(s: Seq<char>) -> Option<PercentageOrSeats> {
    if s.contains('%') {
        match spec_parse_decimal(trim_end_char(s, '%')) {
            Some(d) => Some(PercentageOrSeats::Percentage(Percentage(d))),
            None => None,
        }
    } else {
        match spec_parse_decimal(s) {
            Some(d) => Some(PercentageOrSeats::Seats(Seats(d))),
            None => None,
        }
    }
}

/// The optional layer over a scalar result: a sentinel is unavailable,
/// any other text is what the scalar decoder made of it.
pub open spec fn optional<T>(s: Seq<char>, scalar: Option<T>) -> Option<PollOption<T>> {
    if is_sentinel(s) {
        Some(PollOption::NotAvailable)
    } else {
        match scalar {
            Some(v) => Some(PollOption::Available(v)),
            None => None,
        }
    }
}

pub open spec fn spec_decode_text_option(s: Seq<char>) -> PollOption<Seq<char>> {
    if is_sentinel(s) {
        PollOption::NotAvailable
    } else {
        PollOption::Available(s)
    }
}

pub open spec fn spec_decode_number_option(s: Seq<char>) -> Option<PollOption<Decimal>> {
    optional(s, spec_parse_decimal(s))
}

pub open spec fn spec_decode_qualification_option(s: Seq<char>) -> Option<
    PollOption<SampleSizeQualification>,
> {
    optional(s, spec_decode_qualification(s))
}

pub open spec fn spec_decode_percentage_option(s: Seq<char>) -> Option<PollOption<Percentage>> {
    optional(s, spec_decode_percentage(s))
}

pub open spec fn spec_decode_result_option(s: Seq<char>) -> Option<PollOption<PercentageOrSeats>> {
    optional(s, spec_decode_percentage_or_seats(s))
}

/// Whether `s` is one of the unavailable sentinels.
pub fn is_unavailable(s: &str) -> (r: bool)
    ensures
        r == is_sentinel(s@),
{
    text_equals(s, "Not Available") || text_equals(s, "N/A")
}

/// Decodes `National` or `European`.
pub fn decode_scope(s: &str) -> (r: Option<Scope>)
    ensures
        r == spec_decode_scope(s@),
{
    if text_equals(s, "National") {
        Some(Scope::National)
    } else if text_equals(s, "European") {
        Some(Scope::European)
    } else {
        None
    }
}

/// Decodes `Provided` or `Estimated/Assumed`.
pub fn decode_qualification(s: &str) -> (r: Option<SampleSizeQualification>)
    ensures
        r == spec_decode_qualification(s@),
{
    if text_equals(s, "Provided") {
        Some(SampleSizeQualification::Provided)
    } else if text_equals(s, "Estimated/Assumed") {
        Some(SampleSizeQualification::EstimatedAssumed)
    } else {
        None
    }
}

/// Decodes a number, with any trailing `%` removed first.
pub fn decode_percentage(s: &str) -> (r: Option<Percentage>)
    ensures
        r == spec_decode_percentage(s@),
{
    match Decimal::parse(trim_end_matching(s, '%')) {
        Some(d) => Some(Percentage(d)),
        None => None,
    }
}

/// Decodes a percentage when the text holds `%`, and seats otherwise.
pub fn decode_percentage_or_seats(s: &str) -> (r: Option<PercentageOrSeats>)
    ensures
        r == spec_decode_percentage_or_seats(s@),
{
    if text_contains(s, '%') {
        match Decimal::parse(trim_end_matching(s, '%')) {
            Some(d) => Some(PercentageOrSeats::Percentage(Percentage(d))),
            None => None,
        }
    } else {
        match Decimal::parse(s) {
            Some(d) => Some(PercentageOrSeats::Seats(Seats(d))),
            None => None,
        }
    }
}

/// Decodes free text; a sentinel is unavailable.
pub fn decode_text_option(s: &str) -> (r: PollOption<String>)
    ensures
        spec_decode_text_option(s@) == match r {
            PollOption::NotAvailable => PollOption::NotAvailable,
            PollOption::Available(t) => PollOption::Available(t@),
        },
{
    if is_unavailable(s) {
        PollOption::NotAvailable
    } else {
        PollOption::Available(s.to_owned())
    }
}

/// Decodes an optional number.
pub fn decode_number_option(s: &str) -> (r: Option<PollOption<Decimal>>)
    ensures
        r == spec_decode_number_option(s@),
{
    if is_unavailable(s) {
        Some(PollOption::NotAvailable)
    } else {
        match Decimal::parse(s) {
            Some(d) => Some(PollOption::Available(d)),
            None => None,
        }
    }
}

/// Decodes an optional sample-size qualification.
pub fn decode_qualification_option(s: &str) -> (r: Option<PollOption<SampleSizeQualification>>)
    ensures
        r == spec_decode_qualification_option(s@),
{
    if is_unavailable(s) {
        Some(PollOption::NotAvailable)
    } else {
        match decode_qualification(s) {
            Some(q) => Some(PollOption::Available(q)),
            None => None,
        }
    }
}

/// Decodes an optional percentage.
pub fn decode_percentage_option(s: &str) -> (r: Option<PollOption<Percentage>>)
    ensures
        r == spec_decode_percentage_option(s@),
{
    if is_unavailable(s) {
        Some(PollOption::NotAvailable)
    } else {
        match decode_percentage(s) {
            Some(p) => Some(PollOption::Available(p)),
            None => None,
        }
    }
}

/// Decodes an optional percentage-or-seats result.
pub fn decode_result_option(s: &str) -> (r: Option<PollOption<PercentageOrSeats>>)
    ensures
        r == spec_decode_result_option(s@),
{
    if is_unavailable(s) {
        Some(PollOption::NotAvailable)
    } else {
        match decode_percentage_or_seats(s) {
            Some(p) => Some(PollOption::Available(p)),
            None => None,
        }
    }
}

/// Neither sentinel holds a `%` or is a number.
proof fn lemma_sentinel_shape(s: Seq<char>)
    requires
        is_sentinel(s),
    ensures
        !s.contains('%'),
        spec_parse_decimal(s) is None,
        spec_parse_decimal(trim_end_char(s, '%')) is None,
{
    reveal_strlit("Not Available");
    reveal_strlit("N/A");
    assert(s[0] == 'N');
    lemma_non_numeric_start(s);
    assert(s.last() != '%');
}

/// A sentinel in any optional column decodes to the unavailable marker,
/// never to a failure.
pub proof fn lemma_sentinel_is_unavailable(s: Seq<char>)
    requires
        is_sentinel(s),
    ensures
        spec_decode_text_option(s) == PollOption::<Seq<char>>::NotAvailable,
        spec_decode_number_option(s) == Some(PollOption::<Decimal>::NotAvailable),
        spec_decode_qualification_option(s) == Some(
            PollOption::<SampleSizeQualification>::NotAvailable,
        ),
        spec_decode_percentage_option(s) == Some(PollOption::<Percentage>::NotAvailable),
        spec_decode_result_option(s) == Some(PollOption::<PercentageOrSeats>::NotAvailable),
{
}

/// Text holding a `%` decodes to the percentage written before the
/// trailing `%`; numeric text without `%` decodes to seats.
pub proof fn lemma_percent_sign_decides_unit(s: Seq<char>)
    ensures
        s.contains('%') && spec_parse_decimal(trim_end_char(s, '%')) is Some
            ==> spec_decode_result_option(s) == Some(
            PollOption::Available(
                PercentageOrSeats::Percentage(
                    Percentage(spec_parse_decimal(trim_end_char(s, '%'))->0),
                ),
            ),
        ),
        !s.contains('%') && spec_parse_decimal(s) is Some ==> spec_decode_result_option(s) == Some(
            PollOption::Available(PercentageOrSeats::Seats(Seats(spec_parse_decimal(s)->0))),
        ),
{
    if is_sentinel(s) {
        lemma_sentinel_shape(s);
    }
}

/// Text that is no sentinel, no number (with or without its trailing
/// `%`s) and no literal of a vocabulary fails every decoder that can fail.
pub proof fn lemma_unrecognised_text_fails(s: Seq<char>)
    requires
        !is_sentinel(s),
        spec_parse_decimal(s) is None,
        spec_parse_decimal(trim_end_char(s, '%')) is None,
        s != "National"@,
        s != "European"@,
        s != "Provided"@,
        s != "Estimated/Assumed"@,
    ensures
        spec_decode_scope(s) is None,
        spec_decode_number_option(s) is None,
        spec_decode_qualification_option(s) is None,
        spec_decode_percentage_option(s) is None,
        spec_decode_result_option(s) is None,
{
}

} // verus!
