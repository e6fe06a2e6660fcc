//! The mutation stage: before each pass every object of the corpus is moved
//! to one freshly drawn storage location, so that each pass writes payloads
//! the store has not seen.

use crate::corpus::Corpus;
use crate::object::placement_at;
use crate::object::DomainObject;
use crate::object::ObjectView;
use crate::object::PlacementDescriptor;
use crate::object::PlacementView;
use crate::random::is_token;
use crate::random::random_string;
use crate::random::random_u16;
use crate::seqs::lemma_not_in_prefix;
use crate::seqs::lemma_take_contains;
use vstd::prelude::*;

verus! {

/// The object after its last placement is dropped and `placement` is put at
/// the end. An object without placements has nothing to drop.
pub open spec fn relocated(object: ObjectView, placement: PlacementView) -> ObjectView {
    ObjectView {
        object_id: object.object_id,
        placements: if object.placements.len() == 0 {
            seq![placement]
        } else {
            object.placements.drop_last().push(placement)
        },
    }
}

/// The corpus after every object is relocated to `placement`.
pub open spec fn relocated_corpus(
    objects: Map<Seq<char>, ObjectView>,
    placement: PlacementView,
) -> Map<Seq<char>, ObjectView> {
    objects.map_values(|object: ObjectView| relocated(object, placement))
}

/// The length of the location token that a mutation draws.
pub const TOKEN_LENGTH: usize = 10;

/// The storage location that one mutation moves every object to.
pub struct Relocation {
    pub datacenter: String,
    pub storage_number: u16,
}

impl Relocation {
    /// The placement descriptor that the relocation gives to every object.
    pub open spec fn placement(&self) -> PlacementView {
        placement_at(self.datacenter@, self.storage_number as nat)
    }

    /// Draws the location of one mutation: a token of ten alphanumeric
    /// characters and a storage-node number.
    pub fn draw() -> (relocation: Self)
        ensures
            is_token(relocation.datacenter@, TOKEN_LENGTH as nat),
    {
        let datacenter = random_string(TOKEN_LENGTH);
        let storage_number = random_u16();
        Relocation { datacenter, storage_number }
    }
}

/// A copy of `object` relocated to `relocation`.
pub fn relocate(object: &DomainObject, relocation: &Relocation) -> (moved: DomainObject)
    ensures
        moved@ == relocated(object@, relocation.placement()),
{
    let mut moved = object.clone();
    let ghost before = moved.placements@;
    moved.placements.pop();
    let placement = PlacementDescriptor::new(
        relocation.datacenter.as_str(),
        relocation.storage_number as u64,
    );
    moved.placements.push(placement);
    assert(moved@.placements =~= relocated(object@, relocation.placement()).placements);
    moved
}

/// A new corpus that holds, for every object of `objects`, a copy relocated
/// to `relocation`. The objects are walked in the order of `objects`.
pub fn alter_objects_with(objects: &Corpus, relocation: &Relocation) -> (altered: Corpus)
    ensures
        altered@ == relocated_corpus(objects@, relocation.placement()),
        altered.keys() == objects.keys(),
{
    let n = objects.len();
    let mut altered = Corpus::new();
    let mut i: usize = 0;
    while i < n
        invariant
            i <= n,
            n == objects.keys().len(),
            objects.well_formed(),
            altered.keys() == objects.keys().take(i as int),
            forall|k: Seq<char>|
                altered@.dom().contains(k) <==> objects.keys().take(i as int).contains(k),
            forall|k: Seq<char>|
                altered@.dom().contains(k) ==> #[trigger] altered@[k] == relocated(
                    objects@[k],
                    relocation.placement(),
                ),
        decreases n - i,
    {
        let keys = Ghost(objects.keys());
        let object = objects.object_at(i);
        let moved = relocate(object, relocation);
        proof {
            lemma_not_in_prefix(keys@, i as int);
            assert forall|k: Seq<char>|
                (k == keys@[i as int] || keys@.take(i as int).contains(k)) <==> keys@.take(
                    i + 1,
                ).contains(k) by {
                lemma_take_contains(keys@, i as int, k);
            }
            assert(keys@.take(i + 1) =~= keys@.take(i as int).push(keys@[i as int]));
        }
        altered.insert(moved);
        i += 1;
    }
    proof {
        assert(objects.keys().take(n as int) =~= objects.keys());
        assert forall|k: Seq<char>| altered@.dom().contains(k) <==> objects@.dom().contains(k) by {
            assert(objects.keys().to_set().contains(k) <==> objects.keys().contains(k));
        }
        assert(altered@ =~= relocated_corpus(objects@, relocation.placement()));
    }
    altered
}

/// The mutation stage: draws one location and returns a new corpus in which
/// every object is relocated to it. `objects` is only read.
pub fn alter_objects(objects: &Corpus) -> (altered: Corpus)
    ensures
        altered.keys() == objects.keys(),
        exists|datacenter: Seq<char>, number: nat|
            is_token(datacenter, TOKEN_LENGTH as nat) && number <= u16::MAX && altered@
                == #[trigger] relocated_corpus(objects@, placement_at(datacenter, number)),
{
    let relocation = Relocation::draw();
    let altered = alter_objects_with(objects, &relocation);
    assert(altered@ == relocated_corpus(
        objects@,
        placement_at(relocation.datacenter@, relocation.storage_number as nat),
    ));
    altered
}

/// A mutation keeps the set of keys, hence the number of objects, and keeps
/// the number of placements of every object that has at least one. An object
/// without placements comes out with one.
pub proof fn lemma_mutation_preserves_counts(
    objects: Map<Seq<char>, ObjectView>,
    placement: PlacementView,
)
    ensures
        relocated_corpus(objects, placement).dom() == objects.dom(),
        relocated_corpus(objects, placement).len() == objects.len(),
        forall|k: Seq<char>|
            objects.dom().contains(k) ==> (#[trigger] relocated_corpus(objects, placement)[k]).object_id
                == objects[k].object_id,
        forall|k: Seq<char>|
            objects.dom().contains(k) && objects[k].placements.len() >= 1 ==> (
            #[trigger] relocated_corpus(objects, placement)[k]).placements.len()
                == objects[k].placements.len(),
        forall|k: Seq<char>|
            objects.dom().contains(k) && objects[k].placements.len() == 0 ==> (
            #[trigger] relocated_corpus(objects, placement)[k]).placements.len() == 1,
        forall|k: Seq<char>|
            objects.dom().contains(k) ==> (#[trigger] relocated_corpus(
                objects,
                placement,
            )[k]).placements.last() == placement,
{
}

} // verus!
