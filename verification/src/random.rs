//! The random draws of the benchmark, each made by the thread-local generator
//! of the `rand` crate. Nothing is proved of these functions: their contracts
//! state what `rand` documents of every outcome.

use rand::distributions::Alphanumeric;
use rand::seq::SliceRandom;
use rand::Rng;
use vstd::prelude::*;

verus! {

/// Whether `c` is one of the 62 characters `A`-`Z`, `a`-`z`, `0`-`9`.
pub open spec fn is_alphanumeric(c: char) -> bool {
    ||| 'A' <= c <= 'Z'
    ||| 'a' <= c <= 'z'
    ||| '0' <= c <= '9'
}

/// Whether `s` consists of `len` alphanumeric characters.
pub open spec fn is_token(s: Seq<char>, len: nat) -> bool {
    &&& s.len() == len
    &&& forall|i: int| 0 <= i < s.len() ==> is_alphanumeric(#[trigger] s[i])
}

/// `rand::Rng::sample_iter` with the `Alphanumeric` distribution, cut off
/// after `len` samples and collected: a string of `len` characters, each of
/// which `Alphanumeric` takes from `A`-`Z`, `a`-`z`, `0`-`9`.
#[verifier::external_body]
pub(crate) fn random_string(len: usize) -> (s: String)
    ensures
        is_token(s@, len as nat),
{
    rand::thread_rng().sample_iter(&Alphanumeric).take(len).collect()
}

/// `rand::Rng::gen` for `u16`: any value of the type may come back.
#[verifier::external_body]
pub(crate) fn random_u16() -> u16 {
    rand::thread_rng().gen()
}

/// `rand::Rng::gen_range`: a value that is at least `low` and below `high`.
/// The call panics unless `low < high`.
#[verifier::external_body]
pub(crate) fn random_in_range(low: i32, high: i32) -> (n: i32)
    requires
        low < high,
    ensures
        low <= n < high,
{
    rand::thread_rng().gen_range(low, high)
}

/// `rand::seq::SliceRandom::choose` on a slice: `None` if and only if the
/// slice is empty, else a reference to one of its elements.
#[verifier::external_body]
pub(crate) fn choose_one<T>(items: &Vec<T>) -> (choice: Option<&T>)
    ensures
        choice is None <==> items.len() == 0,
        choice matches Some(item) ==> exists|i: int| 0 <= i < items.len() && items[i] == *item,
{
    items.choose(&mut rand::thread_rng())
}

} // verus!
