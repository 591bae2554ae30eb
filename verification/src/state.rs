use vstd::prelude::*;
use vstd::bytes::spec_u64_to_le_bytes;

verus! {

broadcast use vstd::array::group_array_axioms;

/// A 32-byte account address.
#[derive(Clone, Copy, Debug)]
pub struct Address(pub [u8; 32]);

impl View for Address {
    type V = Seq<u8>;

    open spec fn view(&self) -> Seq<u8> {
        self.0@
    }
}

impl Address {
    /// Byte-wise comparison of two addresses.
    pub fn same_as(&self, other: &Address) -> (r: bool)
        ensures
            r == (*self == *other),
    {
        let mut i: usize = 0;
        while i < 32
            invariant
                i <= 32,
                self.0@.len() == 32,
                other.0@.len() == 32,
                forall|j: int| 0 <= j < i ==> self.0@[j] == other.0@[j],
            decreases 32 - i,
        {
            if self.0[i] != other.0[i] {
                return false;
            }
            i = i + 1;
        }
        assert(self.0 =~= other.0);
        true
    }
}

/// The pool's configuration account.
#[derive(Clone, Copy, Debug)]
pub struct Config {
    pub seed: u64,
    pub authority: Option<Address>,
    pub mint_x: Address,
    pub mint_y: Address,
    pub fee: u16,
    pub locked: bool,
    pub config_bump: u8,
    pub lp_bump: u8,
}

/// The bytes of the word `config`, the first seed of the configuration
/// account's address.
pub open spec fn config_seed_prefix() -> Seq<u8> {
    seq![99u8, 111u8, 110u8, 102u8, 105u8, 103u8]
}

impl Config {
    /// The same configuration with its lock flag set to `flag`.
    pub open spec fn with_lock(self, flag: bool) -> Config {
        Config { locked: flag, ..self }
    }

    /// The seeds with which the configuration account signs: the word
    /// `config`, the pool seed in little-endian bytes, and the bump.
    pub open spec fn spec_signer_seeds(self) -> Seq<Seq<u8>> {
        seq![config_seed_prefix(), spec_u64_to_le_bytes(self.seed), seq![self.config_bump]]
    }

    pub fn signer_seeds(&self) -> (r: Vec<Vec<u8>>)
        ensures
            r.deep_view() == self.spec_signer_seeds(),
    {
        let mut prefix: Vec<u8> = Vec::new();
        prefix.push(99u8);
        prefix.push(111u8);
        prefix.push(110u8);
        prefix.push(102u8);
        prefix.push(105u8);
        prefix.push(103u8);
        let seed_bytes = vstd::bytes::u64_to_le_bytes(self.seed);
        let mut bump: Vec<u8> = Vec::new();
        bump.push(self.config_bump);
        let mut r: Vec<Vec<u8>> = Vec::new();
        r.push(prefix);
        r.push(seed_bytes);
        r.push(bump);
        assert(r.deep_view() =~~= self.spec_signer_seeds());
        r
    }
}

} // verus!
