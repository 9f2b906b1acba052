//! The values that a column of the database can hold.

use crate::error::Cause;
use vstd::prelude::*;

verus! {

/// One value of a row, in one of the five storage classes of the database.
#[derive(Debug, PartialEq, Eq)]
pub enum CellValue {
    Null,
    Integer(i64),
    /// A floating point number, held as its IEEE 754 bit pattern.
    Real(u64),
    Text(String),
    Blob(Vec<u8>),
}

impl CellValue {
    /// The text of a text value. Any other value is invalid input.
    pub fn as_text(&self) -> (text: Result<&str, Cause>)
        ensures
            match text {
                Ok(content) => *self matches CellValue::Text(held) && content@ == held@,
                Err(cause) => !(*self is Text) && cause == Cause::InvalidInput,
            },
    {
        match self {
            CellValue::Text(held) => Ok(held.as_str()),
            _ => Err(Cause::InvalidInput),
        }
    }
}

} // verus!
