//! Identities: the 32-byte addresses of accounts, programs and signers.

use vstd::prelude::*;
use vstd::slice::slice_to_vec;

verus! {

/// The 32-byte identity of an account, a program or a signer.
#[derive(Clone, Copy, Debug, PartialEq, Eq, Hash)]
pub struct Address {
    pub bytes: [u8; 32],
}

impl View for Address {
    type V = Seq<u8>;

    open spec fn view(&self) -> Seq<u8> {
        self.bytes@
    }
}

/// Identity of this program: `9VbGvKKvDTD7LBUFCGaJZVhXJRD9r5dddPSu6LZJfkGF` in base 58.
pub const PROGRAM_ID: [u8; 32] = [
    126, 48, 131, 40, 37, 82, 112, 198, 83, 90, 18, 114, 233, 101, 85, 41,
    192, 128, 170, 135, 227, 40, 253, 16, 236, 59, 31, 19, 211, 172, 77, 192,
];

/// Identity of the oracle program: `LLMrieZMpbJFwN52WgmBNMxYojrpRVYXdC1RCweEbab` in base 58.
pub const ORACLE_PROGRAM_ID: [u8; 32] = [
    4, 243, 236, 227, 186, 229, 243, 111, 177, 44, 201, 138, 255, 99, 28, 21,
    0, 195, 193, 234, 92, 53, 20, 85, 6, 11, 199, 130, 41, 130, 92, 60,
];

/// The identity that stands for "none": thirty-two zero bytes.
pub open spec fn unset_address() -> Seq<u8> {
    Seq::new(32, |i: int| 0u8)
}

impl Address {
    /// The identity that stands for "none".
    pub fn unset() -> (a: Address)
        ensures
            a@ == unset_address(),
    {
        let a = Address { bytes: [0u8; 32] };
        assert(a@ =~= unset_address());
        a
    }

    /// The identity of this program.
    pub fn program() -> (a: Address)
        ensures
            a@ == PROGRAM_ID@,
    {
        Address { bytes: PROGRAM_ID }
    }

    /// The identity of the oracle program.
    pub fn oracle_program() -> (a: Address)
        ensures
            a@ == ORACLE_PROGRAM_ID@,
    {
        Address { bytes: ORACLE_PROGRAM_ID }
    }

    /// Whether two identities are the same, byte for byte.
    pub fn same_as(&self, other: &Address) -> (same: bool)
        ensures
            same == (self@ == other@),
    {
        let mut i: usize = 0;
        while i < 32
            invariant
                i <= 32,
                forall|j: int| 0 <= j < i ==> self.bytes@[j] == other.bytes@[j],
            decreases 32 - i,
        {
            if self.bytes[i] != other.bytes[i] {
                return false;
            }
            i = i + 1;
        }
        assert(self@ =~= other@);
        true
    }
}

/// The address that `Pubkey::try_find_program_address` derives for the program `program_id`
/// from `seeds`, with the bump that it settles on; `None` where it finds no address.
pub uninterp spec fn program_address(seeds: Seq<Seq<u8>>, program_id: Seq<u8>) -> Option<
    (Seq<u8>, u8),
>;

/// A derived address and its bump, as mathematical values.
pub open spec fn derived_view(derived: Option<(Address, u8)>) -> Option<(Seq<u8>, u8)> {
    match derived {
        Some((address, bump)) => Some((address@, bump)),
        None => None,
    }
}

/// Calls `Pubkey::try_find_program_address`, the derivation of a program's address from
/// seeds, and hands its result over unchanged. The result is a function of the seeds and of
/// the program's identity alone; the contract gives it its name and claims no more.
#[verifier::external_body]
pub(crate) fn try_find_program_address(seeds: &Vec<Vec<u8>>, program_id: &Address) -> (derived:
    Option<(Address, u8)>)
    ensures
        derived_view(derived) == program_address(seeds.deep_view(), program_id@),
{
    let seeds: Vec<&[u8]> = seeds.iter().map(|seed| seed.as_slice()).collect();
    let program_id = anchor_lang::prelude::Pubkey::new_from_array(program_id.bytes);
    anchor_lang::prelude::Pubkey::try_find_program_address(&seeds, &program_id)
        .map(|(address, bump)| (Address { bytes: address.to_bytes() }, bump))
}

/// The seeds with which one derived address signs: its seed, then its bump.
pub open spec fn signer_of(seed: Seq<u8>, bump: u8) -> Seq<Seq<Seq<u8>>> {
    seq![seq![seed, seq![bump]]]
}

/// The seeds with which one derived address signs: its seed, then its bump.
pub fn signer_seeds(seed: &[u8], bump: u8) -> (seeds: Vec<Vec<Vec<u8>>>)
    ensures
        seeds.deep_view() == signer_of(seed@, bump),
{
    let first = slice_to_vec(seed);
    let mut last: Vec<u8> = Vec::new();
    last.push(bump);
    proof {
        lemma_bytes_deep_view(first);
        lemma_bytes_deep_view(last);
    }
    let mut signer: Vec<Vec<u8>> = Vec::new();
    signer.push(first);
    signer.push(last);
    assert(signer.deep_view() =~= seq![seed@, seq![bump]]);
    let mut seeds: Vec<Vec<Vec<u8>>> = Vec::new();
    seeds.push(signer);
    assert(seeds.deep_view() =~= signer_of(seed@, bump));
    seeds
}

/// A byte string is its own deep view.
pub proof fn lemma_bytes_deep_view(bytes: Vec<u8>)
    ensures
        bytes.deep_view() == bytes@,
{
    assert(bytes.deep_view() =~= bytes@);
}

impl DeepView for Address {
    type V = Seq<u8>;

    open spec fn deep_view(&self) -> Seq<u8> {
        self@
    }
}

} // verus!
