//! The inner join of the primary table with the reference table.
//!
//! A primary row is matched when the index holds its designator. The output
//! holds one combined row for each matched primary row, in the order of the
//! primary table; unmatched rows are dropped without any error.

use crate::index::{designators, is_last_occurrence, reference_index, ReferenceIndex};
use crate::index::{lemma_index_domain, lemma_last_occurrence_wins};
use crate::record::{combined, CombinedRecord, CombinedRow, Coordinate, PrimaryRecord, PrimaryRow};
use crate::record::{ReferenceRecord, ReferenceRow};
use crate::schema::{combined_uniform, primary_uniform, shape_of, Shape};
use vstd::prelude::*;

verus! {

/// What the join makes of one primary row: its combined row if the index
/// holds its designator, otherwise nothing.
pub open spec fn joined_row(
    primary: PrimaryRow,
    index: Map<Seq<char>, (Coordinate, Coordinate)>,
) -> Option<CombinedRow> {
    if index.contains_key(primary.designator) {
        Some(combined(primary, index[primary.designator]))
    } else {
        None
    }
}

/// The join of the primary rows with an index: the combined rows of the
/// matched primary rows, in the order of the primary rows.
pub open spec fn joined(
    primary: Seq<PrimaryRow>,
    index: Map<Seq<char>, (Coordinate, Coordinate)>,
) -> Seq<CombinedRow> {
    primary.filter_map(|row: PrimaryRow| joined_row(row, index))
}

/// The positions of the matched primary rows, in increasing order.
pub open spec fn matched_positions(
    primary: Seq<PrimaryRow>,
    index: Map<Seq<char>, (Coordinate, Coordinate)>,
) -> Seq<int>
    decreases primary.len(),
{
    if primary.len() == 0 {
        Seq::empty()
    } else {
        let earlier = matched_positions(primary.drop_last(), index);
        if index.contains_key(primary.last().designator) {
            earlier.push(primary.len() - 1)
        } else {
            earlier
        }
    }
}

/// Joins the primary records with a built index.
///
/// Runs in time linear in the number of primary records and changes neither
/// argument.
pub fn join_with_index(primary: &Vec<PrimaryRecord>, index: &ReferenceIndex) -> (out: Vec<
    CombinedRecord,
>)
    ensures
        out.deep_view() == joined(primary.deep_view(), index@),
        out.len() <= primary.len(),
{
    let ghost rows = primary.deep_view();
    let ghost step = |row: PrimaryRow| joined_row(row, index@);
    let mut out: Vec<CombinedRecord> = Vec::new();
    let mut i: usize = 0;
    proof {
        assert(out.deep_view() == rows.take(0).filter_map(step));
    }
    while i < primary.len()
        invariant
            i <= primary.len(),
            rows == primary.deep_view(),
            step == |row: PrimaryRow| joined_row(row, index@),
            out.deep_view() == rows.take(i as int).filter_map(step),
            out.len() <= i,
        decreases primary.len() - i,
    {
        let record = &primary[i];
        let ghost before = out.deep_view();
        proof {
            rows.lemma_filter_map_take_succ(step, i as int);
            assert(rows[i as int] == record@);
        }
        match index.lookup(record.designator.as_str()) {
            Some(point) => {
                let row = CombinedRecord::combine(record, point);
                out.push(row);
                proof {
                    assert(out.deep_view() == before + seq![row@]);
                }
            },
            None => {
                proof {
                    assert(before + Seq::<CombinedRow>::empty() == before);
                }
            },
        }
        i += 1;
    }
    proof {
        assert(rows.take(i as int) == rows);
    }
    out
}

/// Joins the primary records with the reference records on the designator.
///
/// The index is built from the reference records first, so a designator that
/// the reference table repeats is joined with the coordinates of its last
/// row. Runs in time linear in the number of records of both tables.
pub fn join(primary: &Vec<PrimaryRecord>, reference: &Vec<ReferenceRecord>) -> (out: Vec<
    CombinedRecord,
>)
    ensures
        out.deep_view() == joined(primary.deep_view(), reference_index(reference.deep_view())),
        out.len() <= primary.len(),
{
    let index = ReferenceIndex::build(reference);
    join_with_index(primary, &index)
}

/// The output never has more rows than the primary table, and has as many
/// exactly when the index holds the designator of every primary row.
pub proof fn lemma_join_len(
    primary: Seq<PrimaryRow>,
    index: Map<Seq<char>, (Coordinate, Coordinate)>,
)
    ensures
        joined(primary, index).len() <= primary.len(),
        joined(primary, index).len() == primary.len() <==> forall|i: int|
            0 <= i < primary.len() ==> index.contains_key((#[trigger] primary[i]).designator),
    decreases primary.len(),
{
    if primary.len() > 0 {
        let earlier = primary.drop_last();
        lemma_join_len(earlier, index);
        if index.contains_key(primary.last().designator) {
            if joined(primary, index).len() == primary.len() {
                assert forall|i: int| 0 <= i < primary.len() implies index.contains_key(
                    (#[trigger] primary[i]).designator,
                ) by {
                    if i < earlier.len() {
                        assert(earlier[i] == primary[i]);
                    }
                }
            } else {
                let i = choose|i: int|
                    0 <= i < earlier.len() && !index.contains_key(
                        (#[trigger] earlier[i]).designator,
                    );
                assert(primary[i] == earlier[i]);
            }
        } else {
            assert(primary[primary.len() - 1] == primary.last());
        }
    }
}

/// The output has one row for each primary row whose designator occurs in
/// the reference table, however often it occurs there.
pub proof fn lemma_join_count(primary: Seq<PrimaryRow>, reference: Seq<ReferenceRow>)
    ensures
        joined(primary, reference_index(reference)).len() == primary.filter(
            |row: PrimaryRow| designators(reference).contains(row.designator),
        ).len(),
    decreases primary.len(),
{
    reveal(Seq::filter);
    lemma_index_domain(reference);
    if primary.len() > 0 {
        lemma_join_count(primary.drop_last(), reference);
    }
}

/// Stability: output row `k` is the combined row of the `k`-th matched
/// primary row. The matched positions increase strictly, so the output keeps
/// the order of the primary table, and every matched position is among them,
/// so no matched row is lost.
pub proof fn lemma_join_stable(
    primary: Seq<PrimaryRow>,
    index: Map<Seq<char>, (Coordinate, Coordinate)>,
)
    ensures
        matched_positions(primary, index).len() == joined(primary, index).len(),
        forall|k: int|
            0 <= k < joined(primary, index).len() ==> {
                let at = #[trigger] matched_positions(primary, index)[k];
                &&& 0 <= at < primary.len()
                &&& joined_row(primary[at], index) == Some(joined(primary, index)[k])
            },
        forall|j: int, k: int|
            0 <= j < k < joined(primary, index).len() ==> matched_positions(primary, index)[j]
                < matched_positions(primary, index)[k],
        forall|i: int|
            0 <= i < primary.len() && index.contains_key((#[trigger] primary[i]).designator)
                ==> matched_positions(primary, index).contains(i),
    decreases primary.len(),
{
    if primary.len() > 0 {
        let earlier = primary.drop_last();
        let last = primary.len() - 1;
        lemma_join_stable(earlier, index);
        let at = matched_positions(primary, index);
        let at_earlier = matched_positions(earlier, index);
        let out = joined(primary, index);
        let out_earlier = joined(earlier, index);
        assert forall|k: int| 0 <= k < at_earlier.len() implies 0 <= #[trigger] at_earlier[k]
            < last && at[k] == at_earlier[k] && out[k] == out_earlier[k] && primary[at[k]]
            == earlier[at_earlier[k]] by {}
        assert forall|i: int|
            0 <= i < primary.len() && index.contains_key(
                (#[trigger] primary[i]).designator,
            ) implies at.contains(i) by {
            if i < last {
                assert(earlier[i] == primary[i]);
                let k = choose|k: int| 0 <= k < at_earlier.len() && at_earlier[k] == i;
                assert(at[k] == i);
            } else {
                assert(at[at.len() - 1] == i);
            }
        }
    }
}

/// Every output row carries the designator of its primary row, and that
/// designator occurs in the reference table.
pub proof fn lemma_join_matches_reference(
    primary: Seq<PrimaryRow>,
    reference: Seq<ReferenceRow>,
    k: int,
)
    requires
        0 <= k < joined(primary, reference_index(reference)).len(),
    ensures
        designators(reference).contains(joined(primary, reference_index(reference))[k].designator),
{
    let index = reference_index(reference);
    lemma_join_stable(primary, index);
    lemma_index_domain(reference);
    let at = matched_positions(primary, index)[k];
    assert(joined_row(primary[at], index) == Some(joined(primary, index)[k]));
}

/// Last wins: where the reference table repeats a designator, every output
/// row with that designator carries the coordinates of the last such
/// reference row.
pub proof fn lemma_join_last_wins(
    primary: Seq<PrimaryRow>,
    reference: Seq<ReferenceRow>,
    k: int,
    i: int,
)
    requires
        0 <= k < joined(primary, reference_index(reference)).len(),
        is_last_occurrence(reference, i),
        reference[i].designator == joined(primary, reference_index(reference))[k].designator,
    ensures
        joined(primary, reference_index(reference))[k].x_ref == reference[i].x_ref,
        joined(primary, reference_index(reference))[k].y_ref == reference[i].y_ref,
{
    let index = reference_index(reference);
    lemma_join_stable(primary, index);
    lemma_last_occurrence_wins(reference, i);
    let at = matched_positions(primary, index)[k];
    assert(joined_row(primary[at], index) == Some(joined(primary, index)[k]));
}

/// The join keeps the shape of the table: where every primary row has the
/// given shape, so has every output row.
pub proof fn lemma_join_keeps_shape(
    primary: Seq<PrimaryRow>,
    index: Map<Seq<char>, (Coordinate, Coordinate)>,
    shape: Shape,
)
    requires
        primary_uniform(primary, shape),
    ensures
        combined_uniform(joined(primary, index), shape),
{
    lemma_join_stable(primary, index);
    assert forall|k: int| 0 <= k < joined(primary, index).len() implies shape_of(
        (#[trigger] joined(primary, index)[k]).z,
    ) == shape by {
        let at = matched_positions(primary, index)[k];
        assert(joined_row(primary[at], index) == Some(joined(primary, index)[k]));
    }
}

} // verus!
