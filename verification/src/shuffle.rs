//! The deterministic reordering of the recipient list.
//!
//! A single pass walks the list from its last position down to its first;
//! position `i` is exchanged with position `seed mod (i + 1)`.  The pass is
//! a total function of the seed and the list, and it rearranges the list:
//! the output holds the same elements, as a multiset, as the input.

use vstd::prelude::*;
use vstd::seq_lib::{group_to_multiset_ensures, to_multiset_update};
use vstd::multiset::{group_multiset_axioms, group_multiset_properties};
use crate::types::Address;
use crate::encoding::addresses_view;

verus! {

/// One exchange of two positions of a sequence.
pub open spec fn swap_seq<T>(s: Seq<T>, i: int, j: int) -> Seq<T> {
    s.update(i, s[j]).update(j, s[i])
}

/// The state of the reordering pass once positions above `i` have been
/// exchanged: position `i` is exchanged with `seed mod (i + 1)`, then the
/// pass continues downward.
pub open spec fn shuffle_from<T>(seed: u64, s: Seq<T>, i: int) -> Seq<T>
    decreases i + 1,
{
    if i < 0 || i >= s.len() {
        s
    } else {
        shuffle_from(seed, swap_seq(s, i, (seed as int) % (i + 1)), i - 1)
    }
}

/// The full reordering pass over a list.  It is a pure function of
/// `(seed, s)`: the same seed and list always yield the same output.
pub open spec fn shuffle_spec<T>(seed: u64, s: Seq<T>) -> Seq<T> {
    shuffle_from(seed, s, s.len() - 1)
}

/// Exchanging two positions keeps the length and the multiset of elements.
pub proof fn lemma_swap_seq_permutes<T>(s: Seq<T>, i: int, j: int)
    requires
        0 <= i < s.len(),
        0 <= j < s.len(),
    ensures
        swap_seq(s, i, j).len() == s.len(),
        swap_seq(s, i, j).to_multiset() == s.to_multiset(),
{
    broadcast use {group_multiset_axioms, group_multiset_properties, group_to_multiset_ensures,
        to_multiset_update};

    if i == j {
        assert(swap_seq(s, i, j) =~= s);
    } else {
        let t = s.update(i, s[j]);
        assert(t[j] == s[j]);
        assert(t.update(j, s[i]).to_multiset() =~= s.to_multiset());
    }
}

/// Every step of the downward pass keeps the length and the multiset.
proof fn lemma_shuffle_from_permutes<T>(seed: u64, s: Seq<T>, i: int)
    ensures
        shuffle_from(seed, s, i).len() == s.len(),
        shuffle_from(seed, s, i).to_multiset() == s.to_multiset(),
    decreases i + 1,
{
    if i < 0 || i >= s.len() {
    } else {
        let j = (seed as int) % (i + 1);
        assert(0 <= j <= i) by {
            vstd::arithmetic::div_mod::lemma_mod_bound(seed as int, i + 1);
        }
        lemma_swap_seq_permutes(s, i, j);
        lemma_shuffle_from_permutes(seed, swap_seq(s, i, j), i - 1);
    }
}

/// The reordering pass is a rearrangement: for any seed and any list, the
/// output has the same length and the same multiset of elements as the
/// input.  Together with `shuffle_spec` being a function of `(seed, s)`,
/// this makes the pass a deterministic permutation for every input length.
pub proof fn lemma_shuffle_permutes<T>(seed: u64, s: Seq<T>)
    ensures
        shuffle_spec(seed, s).len() == s.len(),
        shuffle_spec(seed, s).to_multiset() == s.to_multiset(),
{
    lemma_shuffle_from_permutes(seed, s, s.len() - 1);
}

/// Over a list of one element the reordering pass is a no-op: the single
/// position can only be exchanged with itself.
pub proof fn lemma_shuffle_singleton<T>(seed: u64, s: Seq<T>)
    requires
        s.len() == 1,
    ensures
        shuffle_spec(seed, s) == s,
{
    assert((seed as int) % 1 == 0);
    assert(swap_seq(s, 0, 0) =~= s);
    assert(shuffle_from(seed, swap_seq(s, 0, 0), -1) == swap_seq(s, 0, 0));
}

/// The reordering pass is deterministic: for one seed and one list,
/// repeated passes always yield one output.
pub proof fn lemma_shuffle_deterministic<T>(seed: u64, s1: Seq<T>, s2: Seq<T>)
    requires
        s1 == s2,
    ensures
        shuffle_spec(seed, s1) == shuffle_spec(seed, s2),
{
}

/// Reorders the recipient list in place with the given seed.
pub fn shuffle(recipients: &mut Vec<Address>, seed: u64)
    ensures
        addresses_view(final(recipients)@) == shuffle_spec(seed, addresses_view(old(recipients)@)),
        final(recipients)@.len() == old(recipients)@.len(),
{
    let n = recipients.len();
    let ghost target = shuffle_spec(seed, addresses_view(old(recipients)@));
    proof {
        assert(addresses_view(old(recipients)@).len() == n);
    }
    let mut i: usize = n;
    while i > 0
        invariant
            i <= n,
            recipients@.len() == n,
            shuffle_from(seed, addresses_view(recipients@), i as int - 1) == target,
        decreases i,
    {
        let idx = i - 1;
        let j64: u64 = seed % (idx as u64 + 1);
        let j: usize = j64 as usize;
        proof {
            assert(j == (seed as int) % (idx as int + 1)) by {
                vstd::arithmetic::div_mod::lemma_mod_bound(seed as int, idx as int + 1);
            }
            assert(j <= idx);
        }
        let ghost before = addresses_view(recipients@);
        let a = recipients[idx].dup();
        let b = recipients[j].dup();
        recipients[idx] = b;
        recipients[j] = a;
        proof {
            assert(addresses_view(recipients@) =~= swap_seq(before, idx as int, j as int));
        }
        i = idx;
    }
    proof {
        assert(shuffle_from(seed, addresses_view(recipients@), -1) == addresses_view(
            recipients@,
        ));
    }
}

} // verus!
