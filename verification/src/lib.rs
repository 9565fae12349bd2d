//! Extraction of per-residue alpha-carbon coordinates from a structured
//! markup document, and the bookkeeping of the geometric reduction over
//! them.
//!
//! [`extract::extract`] streams the document's events once, recognizes the
//! atom-record elements, splits each record's unescaped text into
//! whitespace-delimited columns, filters to the rows naming the
//! representative atom, and checks the three coordinate columns against the
//! decimal grammar; its contract pins the outcome, in document order, for
//! every input. [`reduce::Reducer`] then directs the reduction — which
//! consecutive pair each squared distance is taken over, the running total,
//! the mean over the full residue count, its root, and one scaled residue
//! per residue — while the caller that owns the double-precision
//! arithmetic answers one step at a time.

pub mod extract;
pub mod numeric;
pub mod record;
pub mod reduce;
pub mod text;
pub mod xml;

use vstd::prelude::*;

verus! {

/// Errors raised while scanning the document for atom records.
#[derive(Debug, Clone, Copy, PartialEq, Eq, Structural)]
pub enum ExtractError {
    /// The markup tokenizer could not continue, or a text payload could not
    /// be unescaped.
    MalformedDocument,
    /// A matched record's text content has fewer columns than the format
    /// requires.
    MissingField,
    /// A coordinate column is not a decimal number.
    InvalidNumber,
}

/// Errors raised by the geometry reduction.
#[derive(Debug, Clone, Copy, PartialEq, Eq, Structural)]
pub enum ReduceError {
    /// Zero residues were handed to the reducer, so no average exists.
    EmptySequence,
}

} // verus!
