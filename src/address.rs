//! Addresses and the deterministic derivation of program addresses from seeds.
use vstd::prelude::*;

use crate::record::ErrorCode;

verus! {

/// Seeds longer than this make a derivation fail.
pub const MAX_SEED_LEN: usize = 32;

/// More seeds than this make a derivation fail.
pub const MAX_SEEDS: usize = 16;

/// A 32-byte account address.
#[derive(Clone, Copy, Debug)]
pub struct Address {
    pub bytes: [u8; 32],
}

impl View for Address {
    type V = Seq<u8>;

    open spec fn view(&self) -> Seq<u8> {
        self.bytes@
    }
}

impl Address {
    pub fn new(bytes: [u8; 32]) -> (r: Address)
        ensures
            r@ == bytes@,
    {
        Address { bytes }
    }

    /// Whether two addresses hold the same bytes.
    pub fn same(&self, other: &Address) -> (r: bool)
        ensures
            r == (self@ == other@),
    {
        let mut i: usize = 0;
        while i < 32
            invariant
                i <= 32,
                self@.len() == 32,
                other@.len() == 32,
                forall|j: int| 0 <= j < i ==> self@[j] == other@[j],
            decreases 32 - i,
        {
            if self.bytes[i] != other.bytes[i] {
                return false;
            }
            i = i + 1;
        }
        proof {
            assert(self@ =~= other@);
        }
        true
    }
}

impl PartialEq for Address {
    fn eq(&self, other: &Address) -> (r: bool) {
        self.same(other)
    }
}

impl Eq for Address {}

impl vstd::std_specs::cmp::PartialEqSpecImpl for Address {
    open spec fn obeys_eq_spec() -> bool {
        true
    }

    open spec fn eq_spec(&self, other: &Address) -> bool {
        self@ == other@
    }
}

#[verifier::external_type_specification]
#[verifier::external_body]
pub struct ExPubkeyError(anchor_lang::solana_program::pubkey::PubkeyError);

/// The address that the seeds and the program id derive to, if any: `None` where
/// the derivation lands on the curve or the seeds are out of bounds.
pub uninterp spec fn program_address_of(seeds: Seq<Seq<u8>>, program_id: Seq<u8>) -> Option<Seq<u8>>;

/// Relies on `Pubkey::create_program_address`: a function of the seeds and the
/// program id alone, which fails when there are more than `MAX_SEEDS` seeds or one
/// of them is longer than `MAX_SEED_LEN`.
#[verifier::external_body]
fn create_program_address(seeds: &Vec<Vec<u8>>, program_id: &Address) -> (r: Result<
    Address,
    anchor_lang::solana_program::pubkey::PubkeyError,
>)
    ensures
        r is Ok <==> program_address_of(seeds.deep_view(), program_id@) is Some,
        r matches Ok(a) ==> program_address_of(seeds.deep_view(), program_id@) == Some(a@),
        seeds@.len() > MAX_SEEDS ==> r is Err,
        (exists|i: int| 0 <= i < seeds@.len() && seeds@[i]@.len() > MAX_SEED_LEN) ==> r is Err,
{
    let refs: Vec<&[u8]> = seeds.iter().map(|s| s.as_slice()).collect();
    let pid = anchor_lang::prelude::Pubkey::new_from_array(program_id.bytes);
    anchor_lang::prelude::Pubkey::create_program_address(&refs, &pid).map(|k| Address { bytes: k.to_bytes() })
}

/// What the seeds followed by the one-byte nonce derive to.
pub open spec fn derived_address(seeds: Seq<Seq<u8>>, nonce: u8, program_id: Seq<u8>) -> Option<
    Seq<u8>,
> {
    program_address_of(seeds.push(seq![nonce]), program_id)
}

/// An address as a seed: its 32 bytes.
pub fn seed_of(a: &Address) -> (r: Vec<u8>)
    ensures
        r@ == a@,
{
    let mut r: Vec<u8> = Vec::new();
    let mut i: usize = 0;
    while i < 32
        invariant
            i <= 32,
            a@.len() == 32,
            r@ == a@.subrange(0, i as int),
        decreases 32 - i,
    {
        r.push(a.bytes[i]);
        i = i + 1;
        proof {
            assert(r@ =~= a@.subrange(0, i as int));
        }
    }
    proof {
        assert(r@ =~= a@);
    }
    r
}

/// Derives the address of the seeds followed by the nonce under the program id;
/// `DerivationFailed` where that nonce gives none.
pub fn derive_address(seeds: Vec<Vec<u8>>, nonce: u8, program_id: &Address) -> (r: Result<
    Address,
    ErrorCode,
>)
    ensures
        match r {
            Ok(a) => derived_address(seeds.deep_view(), nonce, program_id@) == Some(a@),
            Err(e) => e == ErrorCode::DerivationFailed && derived_address(
                seeds.deep_view(),
                nonce,
                program_id@,
            ) is None,
        },
{
    let ghost before = seeds.deep_view();
    let mut all = seeds;
    let mut last: Vec<u8> = Vec::new();
    last.push(nonce);
    proof {
        assert(last.deep_view() =~= seq![nonce]);
    }
    all.push(last);
    proof {
        assert(all.deep_view() =~= before.push(seq![nonce]));
    }
    match create_program_address(&all, program_id) {
        Ok(a) => Ok(a),
        Err(_) => Err(ErrorCode::DerivationFailed),
    }
}

/// Whether the seeds followed by the nonce derive to the claimed address.
pub fn verify_address(seeds: Vec<Vec<u8>>, nonce: u8, program_id: &Address, claimed: &Address) -> (r:
    bool)
    ensures
        r == (derived_address(seeds.deep_view(), nonce, program_id@) == Some(claimed@)),
{
    match derive_address(seeds, nonce, program_id) {
        Ok(a) => a.same(claimed),
        Err(_) => false,
    }
}

} // verus!
