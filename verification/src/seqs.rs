//! Facts about sequences that the walks over a corpus rely on.

use vstd::prelude::*;

verus! {

/// Taking one more element adds exactly that element to what the prefix
/// contains.
pub(crate) proof fn lemma_take_contains<A>(s: Seq<A>, i: int, k: A)
    requires
        0 <= i < s.len(),
    ensures
        s.take(i + 1).contains(k) <==> (k == s[i] || s.take(i).contains(k)),
{
    let prev = s.take(i);
    let next = s.take(i + 1);
    assert(next =~= prev.push(s[i]));
    if prev.contains(k) {
        let j = choose|j: int| 0 <= j < prev.len() && prev[j] == k;
        assert(next[j] == k);
    }
    assert(next[i] == s[i]);
    if next.contains(k) && k != s[i] {
        let j = choose|j: int| 0 <= j < next.len() && next[j] == k;
        assert(prev[j] == k);
    }
}

/// In a sequence without duplicates, an element is not among those before it.
pub(crate) proof fn lemma_not_in_prefix<A>(s: Seq<A>, i: int)
    requires
        0 <= i < s.len(),
        s.no_duplicates(),
    ensures
        !s.take(i).contains(s[i]),
{
    let prev = s.take(i);
    if prev.contains(s[i]) {
        let j = choose|j: int| 0 <= j < prev.len() && prev[j] == s[i];
        assert(s[j] == s[i]);
    }
}

} // verus!
