use vstd::prelude::*;

verus! {

/// Declares the database client's error, which a failed connection, query,
/// insert or commit hands back.
#[verifier::external_type_specification]
#[verifier::external_body]
pub struct ExPgError(tokio_postgres::Error);

/// What can go wrong in an operation on the readings.
#[derive(Debug)]
pub enum TemperatureError {
    /// A temperature could not be converted between the store's exact
    /// decimal and floating point.
    TemperatureError,
    /// The import source could not be read or decoded.
    IOError(String),
    /// The table holds no reading.
    NotFound,
    /// Connecting to the store or running a statement failed.
    DatabaseError(tokio_postgres::Error),
}

impl TemperatureError {
    /// The message that describes this error.
    pub fn message(&self) -> (r: String)
        ensures
            r@ == message_of(*self),
    {
        match self {
            TemperatureError::TemperatureError => String::from_str("General temperature error"),
            TemperatureError::IOError(_) => String::from_str("IO Error"),
            TemperatureError::NotFound => String::from_str("no temperatures found"),
            TemperatureError::DatabaseError(_) => String::from_str("Database error"),
        }
    }
}

/// The message of an error, by its kind.
pub open spec fn message_of(e: TemperatureError) -> Seq<char> {
    match e {
        TemperatureError::TemperatureError => "General temperature error"@,
        TemperatureError::IOError(_) => "IO Error"@,
        TemperatureError::NotFound => "no temperatures found"@,
        TemperatureError::DatabaseError(_) => "Database error"@,
    }
}

} // verus!
