//! Deterministic derivation of the custodial vault and its authority.
//!
//! Each game's vault address is computed from a fixed tag and the creating
//! participant's address; its spending authority is the vault's own derived
//! identity, never a private key. Whoever reproduces the derivation — and
//! only they — holds an [`EscrowAuthority`], the proof required to move
//! funds out of the vault.

use vstd::bytes::lemma_auto_spec_u64_to_from_le_bytes;
use vstd::bytes::spec_u64_to_le_bytes;
use vstd::bytes::u64_from_le_bytes;
use vstd::bytes::u64_to_le_bytes;
use vstd::prelude::*;
use vstd::slice::slice_subrange;

use crate::game::AccountId;

verus! {

/// The 32 bytes of an address, least significant word first.
pub open spec fn id_bytes(a: AccountId) -> Seq<u8> {
    spec_u64_to_le_bytes(a.w0) + spec_u64_to_le_bytes(a.w1) + spec_u64_to_le_bytes(a.w2)
        + spec_u64_to_le_bytes(a.w3)
}

impl AccountId {
    /// The address as its 32 bytes.
    pub fn to_bytes(&self) -> (r: Vec<u8>)
        ensures
            r@ == id_bytes(*self),
            r@.len() == 32,
    {
        proof {
            lemma_auto_spec_u64_to_from_le_bytes();
        }
        let mut r = u64_to_le_bytes(self.w0);
        let mut r1 = u64_to_le_bytes(self.w1);
        let mut r2 = u64_to_le_bytes(self.w2);
        let mut r3 = u64_to_le_bytes(self.w3);
        r.append(&mut r1);
        r.append(&mut r2);
        r.append(&mut r3);
        r
    }

    /// The address read back from its 32 bytes.
    pub fn from_bytes(bytes: &[u8]) -> (r: AccountId)
        requires
            bytes@.len() == 32,
        ensures
            id_bytes(r) == bytes@,
    {
        proof {
            lemma_auto_spec_u64_to_from_le_bytes();
        }
        let r = AccountId {
            w0: u64_from_le_bytes(slice_subrange(bytes, 0, 8)),
            w1: u64_from_le_bytes(slice_subrange(bytes, 8, 16)),
            w2: u64_from_le_bytes(slice_subrange(bytes, 16, 24)),
            w3: u64_from_le_bytes(slice_subrange(bytes, 24, 32)),
        };
        proof {
            assert(spec_u64_to_le_bytes(r.w0) == bytes@.subrange(0, 8));
            assert(spec_u64_to_le_bytes(r.w1) == bytes@.subrange(8, 16));
            assert(spec_u64_to_le_bytes(r.w2) == bytes@.subrange(16, 24));
            assert(spec_u64_to_le_bytes(r.w3) == bytes@.subrange(24, 32));
            assert(id_bytes(r) =~= bytes@);
        }
        r
    }
}

/// What `Pubkey::try_find_program_address` returns for the fixed vault seed
/// tag, a creator address and a program id: the derived vault address and
/// its bump seed, a pure function of those arguments alone.
pub uninterp spec fn escrow_derivation(program_id: Seq<u8>, owner: Seq<u8>) -> Option<
    (Seq<u8>, u8),
>;

/// Relies on `Pubkey::try_find_program_address` with seeds
/// `[b"escrow", owner]`: the derived address and bump seed are a function
/// of the seed bytes and the program id alone, an address is 32 bytes, and
/// `None` comes back only when no bump seed yields a valid derivation (or
/// when `program_id` is not 32 bytes long).
#[verifier::external_body]
fn find_escrow_address(program_id: &[u8], owner: &[u8]) -> (r: Option<(Vec<u8>, u8)>)
    ensures
        r is Some <==> escrow_derivation(program_id@, owner@) is Some,
        r is Some ==> Some((r->Some_0.0@, r->Some_0.1)) == escrow_derivation(
            program_id@,
            owner@,
        ),
        r is Some ==> r->Some_0.0@.len() == 32,
{
    let program_id = anchor_lang::prelude::Pubkey::try_from(program_id).ok()?;
    let (address, bump) = anchor_lang::prelude::Pubkey::try_find_program_address(
        &[b"escrow", owner],
        &program_id,
    )?;
    Some((address.to_bytes().to_vec(), bump))
}

/// Proof of authority over one game's vault: the derived vault address and
/// bump seed, together with the creator the derivation was made for. A
/// value exists only through [`derive_escrow_authority`], so holding one is
/// holding the vault's derivation — the capability that authorizes
/// transfers out of the vault.
#[derive(Clone, Copy, Debug)]
pub struct EscrowAuthority {
    address: AccountId,
    bump: u8,
    owner: AccountId,
}

impl EscrowAuthority {
    /// The derived vault address.
    pub closed spec fn spec_address(self) -> AccountId {
        self.address
    }

    /// The bump seed that disambiguates the derivation.
    pub closed spec fn spec_bump(self) -> u8 {
        self.bump
    }

    /// The creator the vault was derived for.
    pub closed spec fn spec_owner(self) -> AccountId {
        self.owner
    }

    /// The derived vault address.
    pub fn address(&self) -> (r: AccountId)
        ensures
            r == self.spec_address(),
    {
        self.address
    }

    /// The bump seed that disambiguates the derivation.
    pub fn bump(&self) -> (r: u8)
        ensures
            r == self.spec_bump(),
    {
        self.bump
    }

    /// The creator the vault was derived for.
    pub fn owner(&self) -> (r: AccountId)
        ensures
            r == self.spec_owner(),
    {
        self.owner
    }
}

/// Derives the vault address and authority proof for the game `player_one`
/// created, from the fixed vault tag and `player_one`'s address under
/// `program_id`. `None` only in the statistically improbable event that no
/// bump seed yields a valid derivation.
pub fn derive_escrow_authority(program_id: &AccountId, player_one: &AccountId) -> (r: Option<
    EscrowAuthority,
>)
    ensures
        r is Some <==> escrow_derivation(id_bytes(*program_id), id_bytes(*player_one)) is Some,
        r is Some ==> ({
            let d = escrow_derivation(id_bytes(*program_id), id_bytes(*player_one))->Some_0;
            &&& id_bytes(r->Some_0.spec_address()) == d.0
            &&& r->Some_0.spec_bump() == d.1
            &&& r->Some_0.spec_owner() == *player_one
        }),
{
    let pid_bytes = program_id.to_bytes();
    let owner_bytes = player_one.to_bytes();
    match find_escrow_address(pid_bytes.as_slice(), owner_bytes.as_slice()) {
        Some((address_bytes, bump)) => Some(
            EscrowAuthority {
                address: AccountId::from_bytes(address_bytes.as_slice()),
                bump,
                owner: *player_one,
            },
        ),
        None => None,
    }
}

} // verus!
