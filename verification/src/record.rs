//! The rows of the three tables and their mathematical views.
//!
//! Every row type has an executable form, which owns its text as `String`, and
//! a view, which holds the same fields with the text as `Seq<char>`. Contracts
//! throughout the crate speak of the views.

use vstd::prelude::*;

verus! {

/// One coordinate value, carried as the bit pattern of its IEEE 754
/// double-precision number.
///
/// The join never computes with coordinates: it only moves them from an input
/// row to an output row, so the bit pattern stands for the number exactly.
#[derive(Clone, Copy, Debug, PartialEq, Eq, Structural)]
pub struct Coordinate {
    pub bits: u64,
}

impl Coordinate {
    /// The coordinate with the given bit pattern.
    pub fn from_bits(bits: u64) -> (c: Coordinate)
        ensures
            c.bits == bits,
    {
        Coordinate { bits }
    }
}

/// A timestamped position reading: one row of the primary table.
///
/// `z` is present in the spatial variant of the table and absent in the
/// planar one. `date` is free text. `designator` is the join key.
#[derive(Debug, PartialEq, Eq)]
pub struct PrimaryRecord {
    pub x: Coordinate,
    pub y: Coordinate,
    pub z: Option<Coordinate>,
    pub date: String,
    pub designator: String,
}

/// The view of a [`PrimaryRecord`].
pub struct PrimaryRow {
    pub x: Coordinate,
    pub y: Coordinate,
    pub z: Option<Coordinate>,
    pub date: Seq<char>,
    pub designator: Seq<char>,
}

impl View for PrimaryRecord {
    type V = PrimaryRow;

    open spec fn view(&self) -> PrimaryRow {
        PrimaryRow {
            x: self.x,
            y: self.y,
            z: self.z,
            date: self.date@,
            designator: self.designator@,
        }
    }
}

impl DeepView for PrimaryRecord {
    type V = PrimaryRow;

    open spec fn deep_view(&self) -> PrimaryRow {
        self@
    }
}

impl Clone for PrimaryRecord {
    fn clone(&self) -> (copy: PrimaryRecord)
        ensures
            copy == *self,
    {
        PrimaryRecord {
            x: self.x,
            y: self.y,
            z: self.z,
            date: self.date.clone(),
            designator: self.designator.clone(),
        }
    }
}

/// A named reference point: one row of the reference table.
///
/// `x_ref` and `y_ref` are the coordinates of the point, which the table
/// files hold in the columns `x_led` and `y_led`.
#[derive(Debug, PartialEq, Eq)]
pub struct ReferenceRecord {
    pub designator: String,
    pub x_ref: Coordinate,
    pub y_ref: Coordinate,
}

/// The view of a [`ReferenceRecord`].
pub struct ReferenceRow {
    pub designator: Seq<char>,
    pub x_ref: Coordinate,
    pub y_ref: Coordinate,
}

impl ReferenceRow {
    /// The coordinate pair that the row gives to its designator.
    pub open spec fn point(self) -> (Coordinate, Coordinate) {
        (self.x_ref, self.y_ref)
    }
}

impl View for ReferenceRecord {
    type V = ReferenceRow;

    open spec fn view(&self) -> ReferenceRow {
        ReferenceRow { designator: self.designator@, x_ref: self.x_ref, y_ref: self.y_ref }
    }
}

impl DeepView for ReferenceRecord {
    type V = ReferenceRow;

    open spec fn deep_view(&self) -> ReferenceRow {
        self@
    }
}

impl Clone for ReferenceRecord {
    fn clone(&self) -> (copy: ReferenceRecord)
        ensures
            copy == *self,
    {
        ReferenceRecord {
            designator: self.designator.clone(),
            x_ref: self.x_ref,
            y_ref: self.y_ref,
        }
    }
}

/// A primary row together with the coordinates of its reference point: one
/// row of the output table.
#[derive(Debug, PartialEq, Eq)]
pub struct CombinedRecord {
    pub x: Coordinate,
    pub y: Coordinate,
    pub z: Option<Coordinate>,
    pub date: String,
    pub designator: String,
    pub x_ref: Coordinate,
    pub y_ref: Coordinate,
}

/// The view of a [`CombinedRecord`].
pub struct CombinedRow {
    pub x: Coordinate,
    pub y: Coordinate,
    pub z: Option<Coordinate>,
    pub date: Seq<char>,
    pub designator: Seq<char>,
    pub x_ref: Coordinate,
    pub y_ref: Coordinate,
}

impl View for CombinedRecord {
    type V = CombinedRow;

    open spec fn view(&self) -> CombinedRow {
        CombinedRow {
            x: self.x,
            y: self.y,
            z: self.z,
            date: self.date@,
            designator: self.designator@,
            x_ref: self.x_ref,
            y_ref: self.y_ref,
        }
    }
}

impl DeepView for CombinedRecord {
    type V = CombinedRow;

    open spec fn deep_view(&self) -> CombinedRow {
        self@
    }
}

impl Clone for CombinedRecord {
    fn clone(&self) -> (copy: CombinedRecord)
        ensures
            copy == *self,
    {
        CombinedRecord {
            x: self.x,
            y: self.y,
            z: self.z,
            date: self.date.clone(),
            designator: self.designator.clone(),
            x_ref: self.x_ref,
            y_ref: self.y_ref,
        }
    }
}

/// The output row for a primary row and the coordinate pair found for its
/// designator: every primary field unchanged, followed by the pair.
pub open spec fn combined(primary: PrimaryRow, point: (Coordinate, Coordinate)) -> CombinedRow {
    CombinedRow {
        x: primary.x,
        y: primary.y,
        z: primary.z,
        date: primary.date,
        designator: primary.designator,
        x_ref: point.0,
        y_ref: point.1,
    }
}

impl CombinedRecord {
    /// Builds the output row for `primary` and `point`. The primary record is
    /// left untouched; its text is copied.
    pub fn combine(primary: &PrimaryRecord, point: (Coordinate, Coordinate)) -> (row:
        CombinedRecord)
        ensures
            row@ == combined(primary@, point),
    {
        CombinedRecord {
            x: primary.x,
            y: primary.y,
            z: primary.z,
            date: primary.date.clone(),
            designator: primary.designator.clone(),
            x_ref: point.0,
            y_ref: point.1,
        }
    }
}

} // verus!
