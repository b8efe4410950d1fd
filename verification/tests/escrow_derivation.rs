use anchor_lang::prelude::Pubkey;
use wager_escrow::derive_escrow_authority;
use wager_escrow::AccountId;

fn acct(n: u64) -> AccountId {
    AccountId { w0: n, w1: n + 1, w2: n + 2, w3: n + 3 }
}

fn pubkey_of(a: AccountId) -> Pubkey {
    let mut bytes = [0u8; 32];
    bytes[0..8].copy_from_slice(&a.w0.to_le_bytes());
    bytes[8..16].copy_from_slice(&a.w1.to_le_bytes());
    bytes[16..24].copy_from_slice(&a.w2.to_le_bytes());
    bytes[24..32].copy_from_slice(&a.w3.to_le_bytes());
    Pubkey::new_from_array(bytes)
}

fn account_of(p: Pubkey) -> AccountId {
    let bytes = p.to_bytes();
    AccountId {
        w0: u64::from_le_bytes(bytes[0..8].try_into().unwrap()),
        w1: u64::from_le_bytes(bytes[8..16].try_into().unwrap()),
        w2: u64::from_le_bytes(bytes[16..24].try_into().unwrap()),
        w3: u64::from_le_bytes(bytes[24..32].try_into().unwrap()),
    }
}

#[test]
fn derivation_matches_the_ledger_host() {
    // The library's derived vault must be exactly what the host chain
    // derives for the seeds [b"escrow", player_one].
    let program_id = acct(1000);
    let player_one = acct(5);
    let auth = derive_escrow_authority(&program_id, &player_one).unwrap();
    let (expected, expected_bump) = Pubkey::find_program_address(
        &[b"escrow", pubkey_of(player_one).as_ref()],
        &pubkey_of(program_id),
    );
    assert_eq!(auth.address(), account_of(expected));
    assert_eq!(auth.bump(), expected_bump);
    assert_eq!(auth.owner(), player_one);
}

#[test]
fn derivation_is_deterministic() {
    let a = derive_escrow_authority(&acct(9), &acct(3)).unwrap();
    let b = derive_escrow_authority(&acct(9), &acct(3)).unwrap();
    assert_eq!(a.address(), b.address());
    assert_eq!(a.bump(), b.bump());
}

#[test]
fn derivation_depends_on_the_creator() {
    let program_id = acct(1000);
    let a = derive_escrow_authority(&program_id, &acct(3)).unwrap();
    let b = derive_escrow_authority(&program_id, &acct(4)).unwrap();
    assert_ne!(a.address(), b.address());
    // The vault is its own authority, never the creator's address.
    assert_ne!(a.address(), acct(3));
    assert_ne!(a.address(), program_id);
}

#[test]
fn address_bytes_round_trip() {
    let a = acct(123456789);
    let bytes = a.to_bytes();
    assert_eq!(bytes.len(), 32);
    assert_eq!(AccountId::from_bytes(bytes.as_slice()), a);
    assert_eq!(account_of(pubkey_of(a)), a);
}
