//! What reading the stored record gives, for each thing that can be found
//! where the record is stored.

use crate::api::{DocumentShape, DocumentShapeView};
use crate::errors::{Error, PersistenceError};
use vstd::prelude::*;

verus! {

/// What was found where a record is stored.
#[derive(Debug, Clone, PartialEq, Eq)]
pub enum Stored<T> {
    /// Nothing is stored there.
    Absent,
    /// Something is stored there and could not be read.
    Unreadable(String),
    /// What is stored there is not a record.
    Unparsable(String),
    /// The record that is stored there.
    Parsed(T),
}

/// Reads records of the type `T`.
pub trait FileHandler<T> {
    /// The record that was found. Where nothing is stored, a record is
    /// made up to start from; where something is stored and is of no use,
    /// reading fails and says why.
    fn read(stored: Stored<T>) -> (r: Result<T, Error>)
        ensures
            match stored {
                Stored::Parsed(record) => r == Ok::<T, Error>(record),
                Stored::Unreadable(detail) => r == Err::<T, Error>(
                    Error::Persistence(PersistenceError::Unreadable(detail)),
                ),
                Stored::Unparsable(detail) => r == Err::<T, Error>(
                    Error::Persistence(PersistenceError::Unparsable(detail)),
                ),
                Stored::Absent => r is Ok,
            },
    ;
}

/// Reads the résumé record.
pub struct ConfigFileHandler;

impl FileHandler<DocumentShape> for ConfigFileHandler {
    /// Where nothing is stored, the record to start from is the one with
    /// the two default names and no section.
    fn read(stored: Stored<DocumentShape>) -> (r: Result<DocumentShape, Error>)
        ensures
            stored is Absent ==> (r matches Ok(shape) && shape@ == DocumentShapeView::initial()),
    {
        match stored {
            Stored::Parsed(record) => Ok(record),
            Stored::Unreadable(detail) => Err(
                Error::Persistence(PersistenceError::Unreadable(detail)),
            ),
            Stored::Unparsable(detail) => Err(
                Error::Persistence(PersistenceError::Unparsable(detail)),
            ),
            Stored::Absent => Ok(DocumentShape::default()),
        }
    }
}

} // verus!
