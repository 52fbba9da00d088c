use vstd::prelude::*;

verus! {

/// A 256-bit hash, stored as its 32 bytes.
pub type H256 = [u8; 32];

/// The all-zero hash (what `H256::zero()` and `Default` give).
pub open spec fn zero_hash() -> Seq<u8> {
    Seq::new(32, |i: int| 0u8)
}

/// Returns the all-zero hash.
pub fn hash_zero() -> (h: H256)
    ensures
        h@ == zero_hash(),
{
    let h: H256 = [0u8; 32];
    assert(h@ =~= zero_hash());
    h
}

/// Byte-wise comparison of two hashes.
pub fn hash_eq(a: &H256, b: &H256) -> (r: bool)
    ensures
        r == (a@ == b@),
{
    let mut i: usize = 0;
    while i < 32
        invariant
            0 <= i <= 32,
            a@.len() == 32,
            b@.len() == 32,
            forall|j: int| 0 <= j < i ==> a@[j] == b@[j],
        decreases 32 - i,
    {
        if a[i] != b[i] {
            return false;
        }
        i += 1;
    }
    assert(a@ =~= b@);
    true
}

/// Position of the entry keyed by `key` in a list of hash-keyed entries, if
/// there is one.
pub fn find_hash_key<V>(entries: &Vec<(H256, V)>, key: &H256) -> (r: Option<usize>)
    ensures
        r matches Some(i) ==> i < entries@.len() && entries@[i as int].0@ == key@,
        r is None ==> forall|i: int| 0 <= i < entries@.len() ==> entries@[i].0@ != key@,
{
    let mut i: usize = 0;
    while i < entries.len()
        invariant
            0 <= i <= entries@.len(),
            forall|j: int| 0 <= j < i ==> entries@[j].0@ != key@,
        decreases entries@.len() - i,
    {
        if hash_eq(&entries[i].0, key) {
            return Some(i);
        }
        i += 1;
    }
    None
}

} // verus!
