//! The corpus: a mapping from object identifier to object, each object filed
//! under its own identifier.

use crate::object::DomainObject;
use crate::object::ObjectView;
use vstd::hash_map::StringHashMap;
use vstd::pervasive::unreached;
use vstd::prelude::*;

verus! {

/// A set of objects with distinct identifiers.
///
/// The mathematical content is the map from identifier to object. The keys
/// are also kept in the order in which they first came in, which is the order
/// in which the corpus is walked.
pub struct Corpus {
    index: StringHashMap<DomainObject>,
    keys: Vec<String>,
}

impl View for Corpus {
    type V = Map<Seq<char>, ObjectView>;

    closed spec fn view(&self) -> Map<Seq<char>, ObjectView> {
        self.index@.map_values(|object: DomainObject| object@)
    }
}

impl Corpus {
    #[verifier::type_invariant]
    spec fn keyed_by_identifier(self) -> bool {
        &&& self.keys().no_duplicates()
        &&& forall|k: Seq<char>| self.index@.dom().contains(k) <==> self.keys().contains(k)
        &&& forall|k: Seq<char>|
            self.index@.dom().contains(k) ==> (#[trigger] self.index@[k]).object_id@ == k
    }

    /// The identifiers of the objects, in the order in which the corpus is
    /// walked.
    pub closed spec fn keys(&self) -> Seq<Seq<char>> {
        self.keys@.map_values(|k: String| k@)
    }

    /// What every corpus satisfies: it is walked key by key without
    /// repetition, the keys walked are the keys of the map, and each object is
    /// filed under its own identifier.
    pub open spec fn well_formed(&self) -> bool {
        &&& self.keys().no_duplicates()
        &&& self.keys().to_set() == self@.dom()
        &&& self@.dom().finite()
        &&& self@.dom().len() == self.keys().len()
        &&& forall|k: Seq<char>| self@.dom().contains(k) ==> (#[trigger] self@[k]).object_id == k
    }

    /// The empty corpus.
    pub fn new() -> (corpus: Self)
        ensures
            corpus@ == Map::<Seq<char>, ObjectView>::empty(),
            corpus.keys() == Seq::<Seq<char>>::empty(),
    {
        let corpus = Corpus { index: StringHashMap::new(), keys: Vec::new() };
        assert(corpus@ =~= Map::<Seq<char>, ObjectView>::empty());
        assert(corpus.keys() =~= Seq::<Seq<char>>::empty());
        corpus
    }

    /// The number of objects.
    pub fn len(&self) -> (n: usize)
        ensures
            n == self@.dom().len(),
            n == self.keys().len(),
            self.well_formed(),
    {
        proof {
            use_type_invariant(self);
            self.keys().unique_seq_to_set();
            assert(self.keys().to_set() =~= self@.dom());
        }
        self.keys.len()
    }

    /// Files `object` under its identifier. An object already filed under
    /// that identifier is replaced.
    pub fn insert(&mut self, object: DomainObject)
        ensures
            final(self)@ == old(self)@.insert(object.object_id@, object@),
            final(self).keys() == if old(self)@.dom().contains(object.object_id@) {
                old(self).keys()
            } else {
                old(self).keys().push(object.object_id@)
            },
    {
        proof {
            use_type_invariant(&*self);
        }
        let ghost before = *self;
        let mut taken = Corpus::new();
        std::mem::swap(&mut taken, self);
        let Corpus { mut index, mut keys } = taken;
        let key = object.object_id.clone();
        if !index.contains_key(key.as_str()) {
            keys.push(key.clone());
        }
        index.insert(key, object);
        proof {
            let id = object.object_id@;
            let old_keys = before.keys();
            let new_keys = keys@.map_values(|k: String| k@);
            if before.index@.dom().contains(id) {
                assert(new_keys =~= old_keys);
                assert(old_keys.contains(id));
            } else {
                assert(new_keys =~= old_keys.push(id));
                assert(new_keys[old_keys.len() as int] == id);
                assert forall|i: int, j: int|
                    0 <= i < new_keys.len() && 0 <= j < new_keys.len() && i != j implies new_keys[i]
                    != new_keys[j] by {
                    if i < old_keys.len() {
                        assert(old_keys.contains(old_keys[i]));
                    }
                    if j < old_keys.len() {
                        assert(old_keys.contains(old_keys[j]));
                    }
                }
            }
            assert forall|k: Seq<char>| index@.dom().contains(k) <==> new_keys.contains(k) by {
                if new_keys.contains(k) {
                    let i = choose|i: int| 0 <= i < new_keys.len() && new_keys[i] == k;
                    if i < old_keys.len() {
                        assert(old_keys.contains(old_keys[i]));
                    }
                }
                if index@.dom().contains(k) && k != id {
                    assert(old_keys.contains(k));
                    let i = choose|i: int| 0 <= i < old_keys.len() && old_keys[i] == k;
                    assert(new_keys[i] == k);
                }
            }
        }
        let after = Corpus { index, keys };
        assert(after@ =~= before@.insert(object.object_id@, object@));
        assert(after.keys() =~= if before@.dom().contains(object.object_id@) {
            before.keys()
        } else {
            before.keys().push(object.object_id@)
        });
        *self = after;
    }

    /// The object filed under `key`, if there is one.
    pub fn get(&self, key: &str) -> (found: Option<&DomainObject>)
        ensures
            match found {
                Some(object) => self@.dom().contains(key@) && object@ == self@[key@],
                None => !self@.dom().contains(key@),
            },
    {
        self.index.get(key)
    }

    /// Whether an object is filed under `key`.
    pub fn contains_key(&self, key: &str) -> (found: bool)
        ensures
            found == self@.dom().contains(key@),
    {
        self.index.contains_key(key)
    }

    /// The object at position `i` of the walk.
    pub fn object_at(&self, i: usize) -> (object: &DomainObject)
        requires
            i < self.keys().len(),
        ensures
            object.object_id@ == self.keys()[i as int],
            self@.dom().contains(self.keys()[i as int]),
            object@ == self@[self.keys()[i as int]],
    {
        proof {
            use_type_invariant(self);
            assert(self.keys().contains(self.keys()[i as int]));
        }
        match self.index.get(self.keys[i].as_str()) {
            Some(object) => object,
            None => unreached(),
        }
    }
}

} // verus!
