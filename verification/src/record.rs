use vstd::prelude::*;

use crate::numeric::is_decimal_number;
use crate::numeric::is_decimal_str;
use crate::text::split_fields;
use crate::text::split_ws;
use crate::text::column_views;
use crate::ExtractError;

verus! {

/// Column of the atom-name discriminator in a record row.
pub const ATOM_NAME_COLUMN: usize = 11;

/// Column of the x coordinate in a record row.
pub const X_COLUMN: usize = 13;

/// Column of the y coordinate in a record row.
pub const Y_COLUMN: usize = 14;

/// Column of the z coordinate in a record row.
pub const Z_COLUMN: usize = 15;

/// Fewest columns a record row may have: one past the last coordinate.
pub const MIN_COLUMNS: usize = 16;

/// The coordinates of one residue's representative atom, as the decimal
/// columns the record carried. Each satisfies `is_decimal_number` when it
/// came out of a successful extraction.
#[derive(Debug, Clone, PartialEq, Eq)]
pub struct Point {
    pub x: String,
    pub y: String,
    pub z: String,
}

/// What a `Point` holds, seen abstractly.
pub ghost struct PointModel {
    pub x: Seq<char>,
    pub y: Seq<char>,
    pub z: Seq<char>,
}

impl View for Point {
    type V = PointModel;

    open spec fn view(&self) -> PointModel {
        PointModel { x: self.x@, y: self.y@, z: self.z@ }
    }
}

/// The representative-atom marker.
pub open spec fn ca_marker() -> Seq<char> {
    seq!['C', 'A']
}

/// What one decoded record row yields: an error for a short row or a bad
/// coordinate, no point for a non-representative atom, else its point.
pub open spec fn row_outcome(text: Seq<char>) -> Result<Option<PointModel>, ExtractError> {
    let cols = split_ws(text);
    if cols.len() < MIN_COLUMNS as int {
        Err(ExtractError::MissingField)
    } else if cols[ATOM_NAME_COLUMN as int] != ca_marker() {
        Ok(None)
    } else if !(is_decimal_number(cols[X_COLUMN as int]) && is_decimal_number(
        cols[Y_COLUMN as int],
    ) && is_decimal_number(cols[Z_COLUMN as int])) {
        Err(ExtractError::InvalidNumber)
    } else {
        Ok(
            Some(
                PointModel {
                    x: cols[X_COLUMN as int],
                    y: cols[Y_COLUMN as int],
                    z: cols[Z_COLUMN as int],
                },
            ),
        )
    }
}

/// An executable row result, seen abstractly.
pub open spec fn row_result_model(r: Result<Option<Point>, ExtractError>) -> Result<
    Option<PointModel>,
    ExtractError,
> {
    match r {
        Ok(None) => Ok(None),
        Ok(Some(p)) => Ok(Some(p@)),
        Err(e) => Err(e),
    }
}

fn is_ca(field: &String) -> (b: bool)
    ensures
        b == (field@ == ca_marker()),
{
    let s = field.as_str();
    let b = s.unicode_len() == 2 && s.get_char(0) == 'C' && s.get_char(1) == 'A';
    proof {
        if b {
            assert(field@ =~= ca_marker());
        } else {
            assert(field@ != ca_marker());
        }
    }
    b
}

/// Process one decoded record row: split it into columns, check the column
/// count, filter by the atom-name column, and keep the coordinate columns.
pub fn process_row(text: &str) -> (r: Result<Option<Point>, ExtractError>)
    ensures
        row_result_model(r) == row_outcome(text@),
{
    let cols = split_fields(text);
    proof {
        assert(column_views(cols@).len() == cols@.len());
    }
    if cols.len() < MIN_COLUMNS {
        return Err(ExtractError::MissingField);
    }
    proof {
        assert(column_views(cols@)[ATOM_NAME_COLUMN as int] == cols@[ATOM_NAME_COLUMN as int]@);
        assert(column_views(cols@)[X_COLUMN as int] == cols@[X_COLUMN as int]@);
        assert(column_views(cols@)[Y_COLUMN as int] == cols@[Y_COLUMN as int]@);
        assert(column_views(cols@)[Z_COLUMN as int] == cols@[Z_COLUMN as int]@);
    }
    if !is_ca(&cols[ATOM_NAME_COLUMN]) {
        return Ok(None);
    }
    if !(is_decimal_str(cols[X_COLUMN].as_str()) && is_decimal_str(cols[Y_COLUMN].as_str())
        && is_decimal_str(cols[Z_COLUMN].as_str())) {
        return Err(ExtractError::InvalidNumber);
    }
    Ok(
        Some(
            Point {
                x: cols[X_COLUMN].clone(),
                y: cols[Y_COLUMN].clone(),
                z: cols[Z_COLUMN].clone(),
            },
        ),
    )
}

} // verus!
