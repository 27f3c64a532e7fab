//! Errors of the catalogue record readers.
use vstd::prelude::*;

verus! {

/// Why a catalogue record could not be read.
#[derive(Debug)]
pub enum Error {
    /// A value of the record does not map to a known entity.
    Mapping(String),
    /// The record does not have the expected shape.
    Parse(String),
}

} // verus!
