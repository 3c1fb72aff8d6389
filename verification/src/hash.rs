//! Fixed-width hashes: block roots and execution block hashes.

use vstd::prelude::*;
use vstd::std_specs::cmp::PartialEqSpecImpl;

verus! {

/// A 32-byte hash, such as the root of a consensus block.
#[derive(Clone, Copy, Debug, Eq, Hash)]
pub struct Hash256(pub [u8; 32]);

impl Hash256 {
    /// The hash whose bytes are all zero.
    pub fn zero() -> (h: Hash256)
        ensures
            h == Hash256::spec_zero(),
            h.is_zero(),
    {
        let h = Hash256([0u8; 32]);
        proof {
            Hash256::lemma_zero_is_unique(h);
        }
        h
    }

    /// The zero hash as a mathematical value.
    pub open spec fn spec_zero() -> Hash256 {
        Hash256(vstd::array::spec_array_fill_for_copy_type::<u8, 32>(0u8))
    }

    /// Whether every byte is zero.
    pub open spec fn is_zero(&self) -> bool {
        forall|i: int| 0 <= i < 32 ==> self.0@[i] == 0u8
    }

    /// A hash is determined by its bytes, so the zero hash is the only one
    /// whose bytes are all zero.
    pub proof fn lemma_zero_is_unique(h: Hash256)
        ensures
            h.is_zero() <==> h == Hash256::spec_zero(),
    {
        vstd::array::axiom_spec_array_fill_for_copy_type::<u8, 32>(0u8);
        if h.is_zero() {
            assert(h.0 =~= Hash256::spec_zero().0);
        }
    }
}

impl PartialEq for Hash256 {
    fn eq(&self, other: &Hash256) -> (same: bool) {
        let mut i: usize = 0;
        while i < 32
            invariant
                i <= 32,
                forall|j: int| 0 <= j < i ==> self.0@[j] == other.0@[j],
            decreases 32 - i,
        {
            if self.0[i] != other.0[i] {
                return false;
            }
            i = i + 1;
        }
        assert(self.0 =~= other.0);
        true
    }
}

impl PartialEqSpecImpl for Hash256 {
    open spec fn obeys_eq_spec() -> bool {
        true
    }

    open spec fn eq_spec(&self, other: &Hash256) -> bool {
        *self == *other
    }
}

/// The hash of a block of the execution layer. It is kept apart from
/// [`Hash256`] so that a consensus root is never taken for an execution hash.
#[derive(Clone, Copy, Debug, Eq, Hash)]
pub struct ExecutionBlockHash(pub Hash256);

impl ExecutionBlockHash {
    /// The zero hash, which stands for "no execution block".
    pub fn zero() -> (h: ExecutionBlockHash)
        ensures
            h == ExecutionBlockHash::spec_zero(),
    {
        ExecutionBlockHash(Hash256::zero())
    }

    /// The zero execution hash as a mathematical value.
    pub open spec fn spec_zero() -> ExecutionBlockHash {
        ExecutionBlockHash(Hash256::spec_zero())
    }

    /// Reads a consensus root as an execution block hash.
    pub fn from_root(root: Hash256) -> (h: ExecutionBlockHash)
        ensures
            h.0 == root,
    {
        ExecutionBlockHash(root)
    }

    /// The 32 bytes of this hash as a plain root.
    pub fn into_root(self) -> (root: Hash256)
        ensures
            root == self.0,
    {
        self.0
    }
}

impl PartialEq for ExecutionBlockHash {
    fn eq(&self, other: &ExecutionBlockHash) -> (same: bool) {
        self.0 == other.0
    }
}

impl PartialEqSpecImpl for ExecutionBlockHash {
    open spec fn obeys_eq_spec() -> bool {
        true
    }

    open spec fn eq_spec(&self, other: &ExecutionBlockHash) -> bool {
        *self == *other
    }
}

} // verus!
