//! The lookup index from designator to reference coordinates.
//!
//! The index is built once from the rows of the reference table, in order.
//! A designator that occurs more than once keeps the coordinates of its last
//! row.

use crate::record::{Coordinate, ReferenceRecord, ReferenceRow};
use vstd::hash_map::StringHashMap;
use vstd::prelude::*;

verus! {

/// The mapping that the reference rows define: each row, taken in order,
/// sets the entry of its designator, replacing an earlier one.
pub open spec fn reference_index(reference: Seq<ReferenceRow>) -> Map<
    Seq<char>,
    (Coordinate, Coordinate),
>
    decreases reference.len(),
{
    if reference.len() == 0 {
        Map::empty()
    } else {
        reference_index(reference.drop_last()).insert(
            reference.last().designator,
            reference.last().point(),
        )
    }
}

/// The designators that occur in the reference rows.
pub open spec fn designators(reference: Seq<ReferenceRow>) -> Set<Seq<char>> {
    Set::new(
        |d: Seq<char>|
            exists|i: int| 0 <= i < reference.len() && (#[trigger] reference[i]).designator == d,
    )
}

/// Whether no row after position `i` carries the designator of row `i`.
pub open spec fn is_last_occurrence(reference: Seq<ReferenceRow>, i: int) -> bool {
    &&& 0 <= i < reference.len()
    &&& forall|j: int|
        i < j < reference.len() ==> (#[trigger] reference[j]).designator
            != reference[i].designator
}

/// The keys of the index are exactly the designators of the reference rows.
pub proof fn lemma_index_domain(reference: Seq<ReferenceRow>)
    ensures
        reference_index(reference).dom() == designators(reference),
    decreases reference.len(),
{
    if reference.len() == 0 {
        assert(reference_index(reference).dom() =~= designators(reference));
    } else {
        let earlier = reference.drop_last();
        lemma_index_domain(earlier);
        assert forall|d: Seq<char>|
            reference_index(reference).dom().contains(d) <==> designators(reference).contains(
                d,
            ) by {
            if designators(reference).contains(d) {
                let i = choose|i: int|
                    0 <= i < reference.len() && (#[trigger] reference[i]).designator == d;
                if i < earlier.len() {
                    assert(earlier[i].designator == d);
                    assert(designators(earlier).contains(d));
                }
            }
            if reference_index(reference).dom().contains(d) {
                if d == reference.last().designator {
                    assert(reference[reference.len() - 1].designator == d);
                } else {
                    assert(designators(earlier).contains(d));
                    let i = choose|i: int|
                        0 <= i < earlier.len() && (#[trigger] earlier[i]).designator == d;
                    assert(reference[i].designator == d);
                }
            }
        }
        assert(reference_index(reference).dom() =~= designators(reference));
    }
}

/// Last wins: the index gives a designator the coordinates of the last
/// reference row that carries it, whatever earlier rows said.
pub proof fn lemma_last_occurrence_wins(reference: Seq<ReferenceRow>, i: int)
    requires
        is_last_occurrence(reference, i),
    ensures
        reference_index(reference).contains_key(reference[i].designator),
        reference_index(reference)[reference[i].designator] == reference[i].point(),
    decreases reference.len(),
{
    if i < reference.len() - 1 {
        let earlier = reference.drop_last();
        assert(earlier[i] == reference[i]);
        assert forall|j: int| i < j < earlier.len() implies (#[trigger] earlier[j]).designator
            != earlier[i].designator by {
            assert(earlier[j] == reference[j]);
        }
        lemma_last_occurrence_wins(earlier, i);
        assert(reference[reference.len() - 1].designator != reference[i].designator);
    }
}

/// Every key of the index has a last occurrence among the reference rows.
pub proof fn lemma_last_occurrence_exists(reference: Seq<ReferenceRow>, d: Seq<char>) -> (i: int)
    requires
        reference_index(reference).contains_key(d),
    ensures
        is_last_occurrence(reference, i),
        reference[i].designator == d,
    decreases reference.len(),
{
    if reference.len() == 0 {
        0
    } else if reference.last().designator == d {
        reference.len() - 1
    } else {
        let earlier = reference.drop_last();
        let i = lemma_last_occurrence_exists(earlier, d);
        assert(earlier[i] == reference[i]);
        assert forall|j: int| i < j < reference.len() implies (#[trigger] reference[j]).designator
            != reference[i].designator by {
            if j < earlier.len() {
                assert(earlier[j] == reference[j]);
            }
        }
        i
    }
}

/// The lookup index: a hash map from designator to coordinate pair.
pub struct ReferenceIndex {
    points: StringHashMap<(Coordinate, Coordinate)>,
}

impl View for ReferenceIndex {
    type V = Map<Seq<char>, (Coordinate, Coordinate)>;

    closed spec fn view(&self) -> Map<Seq<char>, (Coordinate, Coordinate)> {
        self.points@
    }
}

impl ReferenceIndex {
    /// Builds the index of the reference rows, in time and space linear in
    /// their number.
    pub fn build(reference: &Vec<ReferenceRecord>) -> (index: ReferenceIndex)
        ensures
            index@ == reference_index(reference.deep_view()),
    {
        let ghost rows = reference.deep_view();
        let mut points: StringHashMap<(Coordinate, Coordinate)> = StringHashMap::new();
        let mut i: usize = 0;
        while i < reference.len()
            invariant
                i <= reference.len(),
                rows == reference.deep_view(),
                points@ == reference_index(rows.take(i as int)),
            decreases reference.len() - i,
        {
            let record = &reference[i];
            points.insert(record.designator.clone(), (record.x_ref, record.y_ref));
            proof {
                let next = rows.take(i + 1);
                assert(next.drop_last() == rows.take(i as int));
                assert(next.last() == record@);
            }
            i += 1;
        }
        proof {
            assert(rows.take(i as int) == rows);
        }
        ReferenceIndex { points }
    }

    /// Looks a designator up: its coordinate pair if the index holds it,
    /// otherwise nothing.
    pub fn lookup(&self, designator: &str) -> (found: Option<(Coordinate, Coordinate)>)
        ensures
            found == if self@.contains_key(designator@) {
                Some(self@[designator@])
            } else {
                None
            },
    {
        match self.points.get(designator) {
            Some(point) => Some(*point),
            None => None,
        }
    }
}

} // verus!
