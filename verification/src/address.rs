//! Addresses, and how one is derived from seeds. The derivation itself is
//! Solana's: the functions here hand seeds over and take addresses back as
//! plain bytes, and the contracts speak of the results by name.

use vstd::prelude::*;
use vstd::slice::slice_to_vec;
use vstd::string::StringSliceAdditionalSpecFns;
use anchor_lang::solana_program::hash::hash;
use anchor_lang::solana_program::pubkey::Pubkey;
use anchor_lang::solana_program::pubkey::PubkeyError;
use crate::seeds::seeds_view;

verus! {

/// A ledger address: where a record lives, or who signs a request.
#[derive(Clone, Copy, Debug, PartialEq, Eq, Hash)]
pub struct Address {
    pub bytes: [u8; 32],
}

impl View for Address {
    type V = Seq<u8>;

    open spec fn view(&self) -> Seq<u8> {
        self.bytes@
    }
}

impl Address {
    /// The address made of the given bytes.
    pub fn new(bytes: [u8; 32]) -> (r: Address)
        ensures
            r@ == bytes@,
    {
        Address { bytes }
    }

    /// The bytes of the address.
    pub fn to_bytes(&self) -> (r: [u8; 32])
        ensures
            r@ == self@,
    {
        self.bytes
    }

    /// The bytes of the address as a seed.
    pub fn to_seed(&self) -> (r: Vec<u8>)
        ensures
            r@ == self@,
    {
        slice_to_vec(self.bytes.as_slice())
    }

    /// Whether two addresses hold the same bytes.
    pub fn same(&self, other: &Address) -> (r: bool)
        ensures
            r == (self@ == other@),
    {
        let mut i: usize = 0;
        while i < 32
            invariant
                i <= 32,
                forall|j: int| 0 <= j < i ==> self@[j] == other@[j],
            decreases 32 - i,
        {
            if self.bytes[i] != other.bytes[i] {
                return false;
            }
            i += 1;
        }
        assert(self@ =~= other@);
        true
    }
}

/// What `Pubkey::try_find_program_address` returns for these seeds under this
/// program identity: the derived address with its bump, or nothing.
pub uninterp spec fn program_address(seeds: Seq<Seq<u8>>, program: Seq<u8>) -> Option<(Seq<u8>, u8)>;

/// The address that `Pubkey::create_program_address` makes of these seeds under
/// this program identity, where it makes one.
pub uninterp spec fn created_address(seeds: Seq<Seq<u8>>, program: Seq<u8>) -> Option<Seq<u8>>;

/// The SHA-256 digest of a byte string, as `hash` of the Solana SDK computes it.
pub uninterp spec fn sha256(data: Seq<u8>) -> Seq<u8>;

/// Why `Pubkey::create_program_address` made no address. It is carried through
/// unread: every reason means that the seeds lead nowhere.
#[verifier::external_type_specification]
#[verifier::external_body]
pub struct ExPubkeyError(PubkeyError);

/// Calls `Pubkey::try_find_program_address`. The result is a function of the
/// seeds and of the program identity alone, and is known by its name only,
/// but for one thing: the address that comes back is the one that
/// `Pubkey::create_program_address` makes of the same seeds with the bump as
/// one more seed, since that call is how the search accepts a bump.
#[verifier::external_body]
fn try_find_program_address(seeds: &Vec<Vec<u8>>, program: &[u8; 32]) -> (r: Option<([u8; 32], u8)>)
    ensures
        match r {
            Some((address, bump)) => {
                &&& program_address(seeds_view(seeds), program@) == Some((address@, bump))
                &&& created_address(seeds_view(seeds).push(seq![bump]), program@) == Some(
                    address@,
                )
            },
            None => program_address(seeds_view(seeds), program@).is_none(),
        },
{
    let parts: Vec<&[u8]> = seeds.iter().map(|s| s.as_slice()).collect();
    Pubkey::try_find_program_address(&parts, &Pubkey::new_from_array(*program)).map(
        |(key, bump)| (key.to_bytes(), bump),
    )
}

/// Calls `Pubkey::create_program_address`. The address, where one comes back, is
/// a function of the seeds and of the program identity alone, and so is whether
/// one comes back.
#[verifier::external_body]
fn create_program_address(seeds: &Vec<Vec<u8>>, program: &[u8; 32]) -> (r: Result<
    [u8; 32],
    PubkeyError,
>)
    ensures
        match r {
            Ok(address) => created_address(seeds_view(seeds), program@) == Some(address@),
            Err(_) => created_address(seeds_view(seeds), program@).is_none(),
        },
{
    let parts: Vec<&[u8]> = seeds.iter().map(|s| s.as_slice()).collect();
    Pubkey::create_program_address(&parts, &Pubkey::new_from_array(*program)).map(
        |key| key.to_bytes(),
    )
}

/// Calls `hash` of the Solana SDK, which is SHA-256, and takes the digest's bytes.
#[verifier::external_body]
fn sha256_digest(data: &[u8]) -> (r: [u8; 32])
    ensures
        r@ == sha256(data@),
{
    hash(data).to_bytes()
}

/// Derives the address that belongs to `seeds` under `program`, with its bump.
/// The same seeds under the same program give the same address, and the bump,
/// taken as one more seed, leads to that address without a search. Nothing
/// comes back where the seeds lead to no address, as with a seed that is too
/// long.
pub fn derive(seeds: &Vec<Vec<u8>>, program: &Address) -> (r: Option<(Address, u8)>)
    ensures
        derived_view(r) == program_address(seeds_view(seeds), program@),
        leads_back(seeds_view(seeds), program@),
{
    match try_find_program_address(seeds, &program.bytes) {
        Some((bytes, bump)) => Some((Address { bytes }, bump)),
        None => None,
    }
}

/// Whether the bump that the derivation of `seeds` found, taken as one more
/// seed, leads to the derived address again.
pub open spec fn leads_back(seeds: Seq<Seq<u8>>, program: Seq<u8>) -> bool {
    match program_address(seeds, program) {
        Some((address, bump)) => created_address(seeds.push(seq![bump]), program) == Some(address),
        None => true,
    }
}

/// A derivation result over plain values.
pub open spec fn derived_view(d: Option<(Address, u8)>) -> Option<(Seq<u8>, u8)> {
    match d {
        Some((address, bump)) => Some((address@, bump)),
        None => None,
    }
}

/// An address over plain values, where there is one.
pub open spec fn address_view(a: Option<Address>) -> Option<Seq<u8>> {
    match a {
        Some(address) => Some(address@),
        None => None,
    }
}

/// Recomputes the address of `seeds`, whose last seed is a stored bump, under
/// `program`: no bump is searched for.
pub fn rederive(seeds: &Vec<Vec<u8>>, program: &Address) -> (r: Option<Address>)
    ensures
        address_view(r) == created_address(seeds_view(seeds), program@),
{
    match create_program_address(seeds, &program.bytes) {
        Ok(bytes) => Some(Address { bytes }),
        Err(_) => None,
    }
}

/// The digest of a text, by which a text becomes a seed of fixed length.
pub fn content_hash(text: &str) -> (r: Vec<u8>)
    ensures
        r@ == sha256(text.spec_bytes()),
{
    let digest = sha256_digest(text.as_bytes());
    slice_to_vec(digest.as_slice())
}

} // verus!
