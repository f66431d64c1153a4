//! Parsing of opinion-poll tables published in the Europe Elects CSV format.
//!
//! Cells are decoded by small verified grammars: decimal numbers,
//! percentages, seat counts, calendar dates, closed vocabularies and the
//! "unavailable" sentinels. Rows are assembled into [`Poll`] records and a
//! whole source into a [`PollTable`] tagged with its [`Jurisdiction`].
pub mod date;
pub mod decimal;
pub mod fields;
pub mod jurisdiction;
pub mod poll;
pub mod table;
pub mod text;

pub use date::Date;
pub use decimal::Decimal;
pub use fields::{
    Percentage, PercentageOrSeats, PollOption, SampleSizeQualification, Scope, Seats,
};
pub use jurisdiction::{init_jurisdiction, Jurisdiction};
pub use poll::{DecodeError, FixedColumn, Poll};
pub use table::{
    jurisdiction_from_path, DateRangeError, PollTable, PollTableFromStrError,
    PollTableTryFromPathError, RawPollTable, RawPollTableFromStrError,
};
