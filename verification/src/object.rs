//! The synthetic objects the benchmark writes: an identifier and the list of
//! places where copies of the object's data are recorded to reside.

use crate::text::decimal_digits;
use crate::text::decimal_string;
use vstd::prelude::*;

verus! {

/// Where one copy of an object's data resides: a location and a storage node.
pub struct PlacementDescriptor {
    pub datacenter: String,
    pub storage_id: String,
}

/// The mathematical content of a [`PlacementDescriptor`].
pub struct PlacementView {
    pub datacenter: Seq<char>,
    pub storage_id: Seq<char>,
}

impl View for PlacementDescriptor {
    type V = PlacementView;

    open spec fn view(&self) -> PlacementView {
        PlacementView { datacenter: self.datacenter@, storage_id: self.storage_id@ }
    }
}

/// A synthetic object: its unique identifier and its placement descriptors.
pub struct DomainObject {
    pub object_id: String,
    pub placements: Vec<PlacementDescriptor>,
}

/// The mathematical content of a [`DomainObject`].
pub struct ObjectView {
    pub object_id: Seq<char>,
    pub placements: Seq<PlacementView>,
}

/// The content of a list of placement descriptors.
pub open spec fn placements_view(placements: Seq<PlacementDescriptor>) -> Seq<PlacementView> {
    placements.map_values(|p: PlacementDescriptor| p@)
}

impl View for DomainObject {
    type V = ObjectView;

    open spec fn view(&self) -> ObjectView {
        ObjectView {
            object_id: self.object_id@,
            placements: placements_view(self.placements@),
        }
    }
}

/// The name of the storage node with the given number.
pub open spec fn storage_node_name(number: nat) -> Seq<char> {
    decimal_digits(number) + ".stor.domain"@
}

/// The placement on the storage node `number` at `datacenter`.
pub open spec fn placement_at(datacenter: Seq<char>, number: nat) -> PlacementView {
    PlacementView { datacenter, storage_id: storage_node_name(number) }
}

impl PlacementDescriptor {
    /// Builds the descriptor of a copy on storage node `number` at `datacenter`.
    pub fn new(datacenter: &str, number: u64) -> (placement: Self)
        ensures
            placement@ == placement_at(datacenter@, number as nat),
    {
        let mut storage_id = decimal_string(number);
        storage_id.append(".stor.domain");
        PlacementDescriptor { datacenter: datacenter.to_owned(), storage_id }
    }
}

impl Clone for PlacementDescriptor {
    fn clone(&self) -> (copy: Self)
        ensures
            copy@ == self@,
    {
        PlacementDescriptor {
            datacenter: self.datacenter.clone(),
            storage_id: self.storage_id.clone(),
        }
    }
}

impl Clone for DomainObject {
    fn clone(&self) -> (copy: Self)
        ensures
            copy@ == self@,
    {
        let mut placements: Vec<PlacementDescriptor> = Vec::new();
        let mut i: usize = 0;
        while i < self.placements.len()
            invariant
                i <= self.placements.len(),
                placements.len() == i,
                forall|j: int| 0 <= j < i ==> (#[trigger] placements[j])@ == self.placements[j]@,
            decreases self.placements.len() - i,
        {
            placements.push(self.placements[i].clone());
            i += 1;
        }
        assert(placements_view(placements@) =~= placements_view(self.placements@));
        DomainObject { object_id: self.object_id.clone(), placements }
    }
}

} // verus!
