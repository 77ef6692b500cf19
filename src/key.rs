use vstd::prelude::*;

verus! {

/// A 32-byte account identity: a public key or a derived address.
pub type Key = [u8; 32];

/// The all-zero identity, which stands for "nobody".
pub open spec fn default_key() -> Seq<u8> {
    Seq::new(32, |i: int| 0u8)
}

/// The identity made of the given 32 bytes.
pub open spec fn key_from(s: Seq<u8>) -> Key {
    choose|k: Key| k@ == s
}

pub proof fn lemma_key_from_view(k: Key)
    ensures
        key_from(k@) == k,
{
    let c = key_from(k@);
    assert(c@ == k@);
    assert(c =~= k);
}

/// The all-zero identity.
pub fn zero_key() -> (r: Key)
    ensures
        r@ == default_key(),
{
    let r: Key = [0u8; 32];
    assert(r@ =~= default_key());
    r
}

/// Whether two identities are the same.
pub fn keys_equal(a: &Key, b: &Key) -> (r: bool)
    ensures
        r == (a@ == b@),
        r == (*a == *b),
{
    let mut i: usize = 0;
    while i < 32
        invariant
            0 <= i <= 32,
            forall|j: int| 0 <= j < i ==> a[j] == b[j],
        decreases 32 - i,
    {
        if a[i] != b[i] {
            assert(a@[i as int] != b@[i as int]);
            return false;
        }
        i = i + 1;
    }
    assert(a@ =~= b@);
    assert(*a =~= *b);
    true
}

} // verus!
