//! The corpus generator: every generated record gets two placements on
//! randomly drawn storage nodes and is filed under its own identifier.

use crate::corpus::Corpus;
use crate::object::placement_at;
use crate::object::DomainObject;
use crate::object::ObjectView;
use crate::object::PlacementDescriptor;
use crate::object::PlacementView;
use crate::random::random_in_range;
use crate::seqs::lemma_take_contains;
use vstd::prelude::*;

verus! {

/// The identifiers of a list of records, in order.
pub open spec fn identifiers(records: Seq<DomainObject>) -> Seq<Seq<char>> {
    records.map_values(|record: DomainObject| record.object_id@)
}

/// The placements that generation gives an object when the draws for the
/// storage nodes come out as `first` and `second`: one copy on each, both at
/// the location `foo`.
pub open spec fn generated_placements(first: nat, second: nat) -> Seq<PlacementView> {
    seq![placement_at("foo"@, first), placement_at("foo"@, second)]
}

/// Whether the placements of `object` are those of some outcome of
/// generation: the first storage node is 1 or 2, the second is 3 or 4.
pub open spec fn is_generated(object: ObjectView) -> bool {
    exists|first: nat, second: nat|
        1 <= first <= 2 && 3 <= second <= 4 && object.placements == #[trigger] generated_placements(
            first,
            second,
        )
}

/// The record with its placements replaced by those for the storage nodes
/// `first` and `second`.
pub fn place_object(record: &DomainObject, first: u64, second: u64) -> (object: DomainObject)
    ensures
        object@.object_id == record@.object_id,
        object@.placements == generated_placements(first as nat, second as nat),
{
    let mut placements: Vec<PlacementDescriptor> = Vec::new();
    placements.push(PlacementDescriptor::new("foo", first));
    placements.push(PlacementDescriptor::new("foo", second));
    let object = DomainObject { object_id: record.object_id.clone(), placements };
    assert(object@.placements =~= generated_placements(first as nat, second as nat));
    object
}

/// Draws the storage nodes of one object: the first among 1 and 2, the second
/// among 3 and 4.
pub fn draw_storage_nodes() -> (nodes: (u64, u64))
    ensures
        1 <= nodes.0 <= 2,
        3 <= nodes.1 <= 4,
{
    let first = random_in_range(1, 3);
    let second = random_in_range(3, 5);
    (first as u64, second as u64)
}

/// Generates the corpus for `records`: each record gets freshly drawn
/// placements and is filed under its identifier, in the order of `records`.
/// Of two records with the same identifier the later one replaces the
/// earlier, so the corpus has one object per distinct identifier.
pub fn gen_test_objects(records: &Vec<DomainObject>) -> (corpus: Corpus)
    ensures
        corpus@.dom() == identifiers(records@).to_set(),
        forall|k: Seq<char>|
            corpus@.dom().contains(k) ==> (#[trigger] corpus@[k]).object_id == k && is_generated(
                corpus@[k],
            ),
        corpus@.dom().finite(),
        corpus@.dom().len() <= records.len(),
        identifiers(records@).no_duplicates() ==> corpus@.dom().len() == records.len(),
{
    let ghost ids = identifiers(records@);
    let mut corpus = Corpus::new();
    let mut i: usize = 0;
    while i < records.len()
        invariant
            i <= records.len(),
            ids == identifiers(records@),
            forall|k: Seq<char>| corpus@.dom().contains(k) <==> ids.take(i as int).contains(k),
            forall|k: Seq<char>|
                corpus@.dom().contains(k) ==> (#[trigger] corpus@[k]).object_id == k
                    && is_generated(corpus@[k]),
        decreases records.len() - i,
    {
        let (first, second) = draw_storage_nodes();
        let object = place_object(&records[i], first, second);
        proof {
            assert(object@.placements == generated_placements(first as nat, second as nat));
            assert(is_generated(object@));
            assert(ids[i as int] == object@.object_id);
            assert forall|k: Seq<char>|
                (k == ids[i as int] || ids.take(i as int).contains(k)) <==> ids.take(
                    i + 1,
                ).contains(k) by {
                lemma_take_contains(ids, i as int, k);
            }
        }
        corpus.insert(object);
        i += 1;
    }
    let n = corpus.len();
    proof {
        assert(ids.take(records.len() as int) =~= ids);
        assert(corpus@.dom() =~= ids.to_set());
        ids.lemma_cardinality_of_set();
        if ids.no_duplicates() {
            ids.unique_seq_to_set();
        }
    }
    corpus
}

/// A generated object has two placements: never none, and never more than
/// four.
pub proof fn lemma_generated_count(object: ObjectView)
    requires
        is_generated(object),
    ensures
        object.placements.len() == 2,
        2 <= object.placements.len() <= 4,
        object.placements.len() != 0,
{
}

} // verus!
