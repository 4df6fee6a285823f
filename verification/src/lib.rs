//! Inner join of timestamped position readings with a table of named
//! reference points, keyed by a textual designator.
//!
//! The crate works on rows that are already in memory:
//!
//! * [`record`] holds the rows of the primary, the reference and the output
//!   table, and their views;
//! * [`index`] builds the lookup index from designator to reference
//!   coordinates, in which the last row of a repeated designator wins;
//! * [`join`](mod@join) joins the primary rows with the index, keeping the
//!   matched rows in their order and dropping the others;
//! * [`schema`] names the columns of the tables in their order.
//!
//! Reading and writing table files is left to the caller. Coordinates pass
//! through the join as bit patterns and are never computed with.

pub mod index;
pub mod join;
pub mod record;
pub mod schema;
