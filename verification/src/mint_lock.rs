//! Mint locks: single-use markers, one per signature digest. A lock is known
//! by its address, the label `mint_lock` followed by the digest; it is never
//! removed once claimed.

use vstd::prelude::*;
use crate::bytes::bytes_equal;
use crate::error::ErrorCode;

verus! {

/// The ASCII bytes of `mint_lock`.
pub open spec fn mint_lock_label() -> Seq<u8> {
    seq![109u8, 105u8, 110u8, 116u8, 95u8, 108u8, 111u8, 99u8, 107u8]
}

/// The address of the lock that belongs to a signature digest.
pub open spec fn lock_address(signature_hash: Seq<u8>) -> Seq<u8> {
    mint_lock_label() + signature_hash
}

/// Distinct digests have distinct lock addresses.
pub proof fn lemma_lock_address_injective(first: Seq<u8>, second: Seq<u8>)
    requires
        lock_address(first) == lock_address(second),
    ensures
        first == second,
{
    let label = mint_lock_label();
    assert(label.len() == 9);
    assert((label + first).len() == (label + second).len());
    assert forall|i: int| 0 <= i < first.len() implies first[i] == second[i] by {
        assert((label + first)[9 + i] == first[i]);
        assert((label + second)[9 + i] == second[i]);
    }
    assert(first =~= second);
}

/// Computes the address of the lock that belongs to `signature_hash`.
pub fn mint_lock_address(signature_hash: &[u8; 32]) -> (address: Vec<u8>)
    ensures
        address@ == lock_address(signature_hash@),
{
    let mut address: Vec<u8> = Vec::new();
    address.push(109);
    address.push(105);
    address.push(110);
    address.push(116);
    address.push(95);
    address.push(108);
    address.push(111);
    address.push(99);
    address.push(107);
    assert(address@ =~= mint_lock_label());
    let mut i: usize = 0;
    while i < 32
        invariant
            i <= 32,
            address@ == mint_lock_label() + signature_hash@.subrange(0, i as int),
        decreases 32 - i,
    {
        address.push(signature_hash[i]);
        assert(signature_hash@.subrange(0, i as int).push(signature_hash@[i as int])
            =~= signature_hash@.subrange(0, i + 1));
        assert(address@ =~= mint_lock_label() + signature_hash@.subrange(0, i + 1));
        i += 1;
    }
    assert(signature_hash@.subrange(0, 32) =~= signature_hash@);
    address
}

/// The locks claimed so far.
pub struct MintLocks {
    pub claimed: Vec<Vec<u8>>,
}

impl View for MintLocks {
    type V = Set<Seq<u8>>;

    /// The set of claimed addresses.
    open spec fn view(&self) -> Set<Seq<u8>> {
        Set::new(
            |address: Seq<u8>|
                exists|i: int| 0 <= i < self.claimed@.len() && #[trigger] self.claimed@[i]@ == address,
        )
    }
}

impl MintLocks {
    /// A store in which nothing is claimed.
    pub fn new() -> (locks: MintLocks)
        ensures
            locks@ == Set::<Seq<u8>>::empty(),
    {
        let locks = MintLocks { claimed: Vec::new() };
        assert(locks@ =~= Set::<Seq<u8>>::empty());
        locks
    }

    /// Whether the lock at `address` has been claimed.
    pub fn is_claimed(&self, address: &[u8]) -> (claimed: bool)
        ensures
            claimed == self@.contains(address@),
    {
        let mut i: usize = 0;
        while i < self.claimed.len()
            invariant
                i <= self.claimed@.len(),
                forall|k: int| 0 <= k < i ==> #[trigger] self.claimed@[k]@ != address@,
            decreases self.claimed@.len() - i,
        {
            if bytes_equal(self.claimed[i].as_slice(), address) {
                return true;
            }
            i += 1;
        }
        false
    }

    /// Claims the lock at `address`. The first claim of an address succeeds
    /// and records it; every later claim of that address is a conflict and
    /// leaves the store as it was.
    pub fn claim(&mut self, address: Vec<u8>) -> (out: Result<(), ErrorCode>)
        ensures
            old(self)@.contains(address@) ==> out == Err::<(), ErrorCode>(
                ErrorCode::MintLockConflict,
            ) && *final(self) == *old(self),
            !old(self)@.contains(address@) ==> out is Ok && final(self)@ == old(self)@.insert(
                address@,
            ),
    {
        if self.is_claimed(address.as_slice()) {
            return Err(ErrorCode::MintLockConflict);
        }
        let ghost before = self.claimed@;
        let ghost added = address@;
        self.claimed.push(address);
        proof {
            let after = self.claimed@;
            assert(after.len() == before.len() + 1);
            assert(after[before.len() as int]@ == added);
            assert forall|a: Seq<u8>| self@.contains(a) == old(self)@.insert(added).contains(
                a,
            ) by {
                if old(self)@.insert(added).contains(a) {
                    if a == added {
                        assert(after[before.len() as int]@ == a);
                    } else {
                        let i = choose|i: int|
                            0 <= i < before.len() && #[trigger] before[i]@ == a;
                        assert(after[i]@ == a);
                    }
                }
                if self@.contains(a) {
                    let i = choose|i: int| 0 <= i < after.len() && #[trigger] after[i]@ == a;
                    if i < before.len() {
                        assert(before[i]@ == a);
                    }
                }
            }
            assert(self@ =~= old(self)@.insert(added));
        }
        Ok(())
    }
}

} // verus!
