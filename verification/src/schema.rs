//! The shape of the tables: which columns they have, and in which order.
//!
//! The primary table comes in two variants, with and without a `z` column.
//! The output table has the columns of the primary table followed by the two
//! coordinate columns of the reference table.

use crate::record::{CombinedRecord, CombinedRow, Coordinate, PrimaryRecord, PrimaryRow};
use vstd::prelude::*;

verus! {

/// The variant of the primary table, and with it of the output table.
#[derive(Clone, Copy, Debug, PartialEq, Eq, Structural)]
pub enum Shape {
    /// Rows hold `x` and `y`.
    Planar,
    /// Rows hold `x`, `y` and `z`.
    Spatial,
}

/// The shape that a row with the given `z` field belongs to.
pub open spec fn shape_of(z: Option<Coordinate>) -> Shape {
    if z.is_some() {
        Shape::Spatial
    } else {
        Shape::Planar
    }
}

/// Whether every primary row has the given shape.
pub open spec fn primary_uniform(rows: Seq<PrimaryRow>, shape: Shape) -> bool {
    forall|i: int| 0 <= i < rows.len() ==> shape_of((#[trigger] rows[i]).z) == shape
}

/// Whether every combined row has the given shape.
pub open spec fn combined_uniform(rows: Seq<CombinedRow>, shape: Shape) -> bool {
    forall|i: int| 0 <= i < rows.len() ==> shape_of((#[trigger] rows[i]).z) == shape
}

impl PrimaryRecord {
    /// The shape of this record.
    pub fn shape(&self) -> (shape: Shape)
        ensures
            shape == shape_of(self@.z),
    {
        match self.z {
            Some(_) => Shape::Spatial,
            None => Shape::Planar,
        }
    }
}

impl CombinedRecord {
    /// The shape of this record.
    pub fn shape(&self) -> (shape: Shape)
        ensures
            shape == shape_of(self@.z),
    {
        match self.z {
            Some(_) => Shape::Spatial,
            None => Shape::Planar,
        }
    }
}

/// The column names of the primary table, in order.
pub open spec fn primary_header(shape: Shape) -> Seq<Seq<char>> {
    match shape {
        Shape::Planar => seq!["x"@, "y"@, "date"@, "designator"@],
        Shape::Spatial => seq!["x"@, "y"@, "z"@, "date"@, "designator"@],
    }
}

/// The column names of the reference table, in order.
pub open spec fn reference_header() -> Seq<Seq<char>> {
    seq!["designator"@, "x_led"@, "y_led"@]
}

/// The column names of the output table, in order: those of the primary
/// table, then the two coordinate columns of the reference table.
pub open spec fn combined_header(shape: Shape) -> Seq<Seq<char>> {
    primary_header(shape) + seq!["x_led"@, "y_led"@]
}

/// The column names of the primary table of the given shape.
pub fn primary_columns(shape: Shape) -> (columns: Vec<String>)
    ensures
        columns.deep_view() == primary_header(shape),
{
    let mut columns: Vec<String> = Vec::new();
    columns.push("x".to_owned());
    columns.push("y".to_owned());
    match shape {
        Shape::Spatial => {
            columns.push("z".to_owned());
        },
        Shape::Planar => {},
    }
    columns.push("date".to_owned());
    columns.push("designator".to_owned());
    proof {
        assert(columns.deep_view() =~= primary_header(shape));
    }
    columns
}

/// The column names of the reference table.
pub fn reference_columns() -> (columns: Vec<String>)
    ensures
        columns.deep_view() == reference_header(),
{
    let mut columns: Vec<String> = Vec::new();
    columns.push("designator".to_owned());
    columns.push("x_led".to_owned());
    columns.push("y_led".to_owned());
    proof {
        assert(columns.deep_view() =~= reference_header());
    }
    columns
}

/// The column names of the output table of the given shape.
pub fn combined_columns(shape: Shape) -> (columns: Vec<String>)
    ensures
        columns.deep_view() == combined_header(shape),
{
    let mut columns = primary_columns(shape);
    let ghost head = columns.deep_view();
    columns.push("x_led".to_owned());
    columns.push("y_led".to_owned());
    proof {
        assert(columns.deep_view() =~= head + seq!["x_led"@, "y_led"@]);
    }
    columns
}

} // verus!
