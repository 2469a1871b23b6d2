//! Account identities and the derivation of keyless custody authorities.
use anchor_lang::solana_program::pubkey::Pubkey;
use vstd::prelude::*;

verus! {

/// A 32-byte account identity.
#[derive(Clone, Copy, Debug)]
pub struct Address {
    pub bytes: [u8; 32],
}

/// The namespace tag that starts the seeds of every escrow authority.
pub open spec fn escrow_tag() -> Seq<u8> {
    seq![101u8, 115u8, 99u8, 114u8, 111u8, 119u8]
}

/// The seeds an escrow authority is derived from: the namespace tag, the
/// maker's identity and the little-endian bytes of the maker's seed.
pub open spec fn escrow_seeds(maker: Address, seed: u64) -> Seq<Seq<u8>> {
    seq![escrow_tag(), maker.bytes@, vstd::bytes::spec_u64_to_le_bytes(seed)]
}

/// The program-derived address and bump found for `seeds` under `program`,
/// or `None` when no bump gives an address off the curve.
pub uninterp spec fn program_address(seeds: Seq<Seq<u8>>, program: Seq<u8>) -> Option<(Address, u8)>;

/// The escrow authority of `maker` and `seed` under `program`, with its bump.
pub open spec fn escrow_authority(program: Address, maker: Address, seed: u64) -> Option<(Address, u8)> {
    program_address(escrow_seeds(maker, seed), program.bytes@)
}

impl Address {
    pub fn new(bytes: [u8; 32]) -> (r: Address)
        ensures
            r.bytes == bytes,
    {
        Address { bytes }
    }

    /// The identity's bytes, in order.
    pub fn to_vec(&self) -> (r: Vec<u8>)
        ensures
            r@ == self.bytes@,
    {
        let mut v: Vec<u8> = Vec::new();
        let mut i: usize = 0;
        while i < 32
            invariant
                0 <= i <= 32,
                v@ == self.bytes@.subrange(0, i as int),
            decreases 32 - i,
        {
            v.push(self.bytes[i]);
            i = i + 1;
            assert(v@ =~= self.bytes@.subrange(0, i as int));
        }
        assert(self.bytes@.subrange(0, 32) =~= self.bytes@);
        v
    }

    /// Byte-wise equality of two identities.
    pub fn same(&self, other: &Address) -> (r: bool)
        ensures
            r == (*self == *other),
    {
        let mut i: usize = 0;
        while i < 32
            invariant
                0 <= i <= 32,
                forall|j: int| 0 <= j < i ==> self.bytes@[j] == other.bytes@[j],
            decreases 32 - i,
        {
            if self.bytes[i] != other.bytes[i] {
                assert(self.bytes@[i as int] != other.bytes@[i as int]);
                return false;
            }
            i = i + 1;
        }
        proof {
            assert(self.bytes@ =~= other.bytes@);
            vstd::array::axiom_array_ext_equal(self.bytes, other.bytes);
        }
        true
    }
}

impl PartialEq for Address {
    fn eq(&self, other: &Address) -> (r: bool) {
        self.same(other)
    }
}

impl vstd::std_specs::cmp::PartialEqSpecImpl for Address {
    open spec fn obeys_eq_spec() -> bool {
        true
    }

    open spec fn eq_spec(&self, other: &Address) -> bool {
        *self == *other
    }
}

impl Eq for Address {

}

/// Relies on `Pubkey::try_find_program_address`: it searches the bumps from
/// 255 down and returns the first address off the ed25519 curve, with its
/// bump, so the result depends on the seeds and the program id alone.
#[verifier::external_body]
fn find_program_address(seeds: &Vec<Vec<u8>>, program: &Address) -> (r: Option<(Address, u8)>)
    ensures
        r == program_address(seeds.deep_view(), program.bytes@),
{
    let slices: Vec<&[u8]> = seeds.iter().map(|s| s.as_slice()).collect();
    let found = Pubkey::try_find_program_address(&slices, &Pubkey::new_from_array(program.bytes));
    found.map(|(key, bump)| (Address { bytes: key.to_bytes() }, bump))
}

/// Derives the custody authority of an escrow from the program id, the
/// maker and the maker's seed. No private key belongs to the result: only
/// the program that derived it can act for it.
pub fn derive_escrow_authority(program: &Address, maker: &Address, seed: u64) -> (r: Option<(Address, u8)>)
    ensures
        r == escrow_authority(*program, *maker, seed),
{
    let tag: Vec<u8> = vec![101u8, 115u8, 99u8, 114u8, 111u8, 119u8];
    let who: Vec<u8> = maker.to_vec();
    let nonce: Vec<u8> = vstd::bytes::u64_to_le_bytes(seed);
    let seeds: Vec<Vec<u8>> = vec![tag, who, nonce];
    proof {
        assert(tag@ =~= escrow_tag());
        assert(seeds@[0].deep_view() =~= escrow_tag());
        assert(seeds@[1].deep_view() =~= maker.bytes@);
        assert(seeds@[2].deep_view() =~= vstd::bytes::spec_u64_to_le_bytes(seed));
        assert(seeds.deep_view() =~= escrow_seeds(*maker, seed));
    }
    find_program_address(&seeds, program)
}

} // verus!
