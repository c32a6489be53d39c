use vstd::prelude::*;

verus! {

/// Declares the store's exact-decimal value; the library only carries it
/// between the import conversion and the insert statement.
#[verifier::external_type_specification]
#[verifier::external_body]
pub struct ExDecimal(rust_decimal::Decimal);

/// A point in time, in UTC: whole seconds since the Unix epoch and the
/// nanoseconds past that second.
#[derive(Clone, Copy, Debug, PartialEq, Eq, Structural)]
pub struct Timestamp {
    pub secs: i64,
    pub nanos: u32,
}

/// A temperature in degrees Celsius, held as the bit pattern of an IEEE-754
/// single-precision value.
#[derive(Clone, Copy, Debug, PartialEq, Eq, Structural)]
pub struct Centigrade {
    pub bits: u32,
}

/// One reading: when it was taken and the temperature.
#[derive(Clone, Copy, Debug, PartialEq, Eq, Structural)]
pub struct TimedTemp {
    pub timestamp: Timestamp,
    pub centigrade: Centigrade,
}

/// One row of the table as it is stored: the timestamp column and the
/// exact-decimal temperature column.
#[derive(Clone, Copy, Debug)]
pub struct StoredRow {
    pub timestamp: Timestamp,
    pub centigrade: rust_decimal::Decimal,
}

/// A row as fetched by a query: its timestamp, and its temperature converted
/// to floating point, `None` where the stored decimal did not convert.
#[derive(Clone, Copy, Debug, PartialEq, Eq, Structural)]
pub struct FetchedRow {
    pub timestamp: Timestamp,
    pub centigrade: Option<Centigrade>,
}

/// A reading to import: its timestamp, and its temperature converted to the
/// store's exact decimal, `None` where the value had no decimal form.
#[derive(Clone, Copy, Debug)]
pub struct ImportItem {
    pub timestamp: Timestamp,
    pub centigrade: Option<rust_decimal::Decimal>,
}

} // verus!
