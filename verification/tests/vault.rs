use anchor_vault::addr::{addr_eq, derive_vault_address, Address};
use anchor_vault::error::VaultError;
use anchor_vault::init::{initialize_vault, InitializeVault};
use anchor_vault::ledger::Ledger;
use anchor_vault::record::{decode_record, encode_record, VaultData, VAULT_RECORD_SPACE};

fn key(tag: u8) -> Address {
    let mut bytes = [0u8; 32];
    bytes[0] = tag;
    bytes[31] = tag.wrapping_mul(3);
    Address { bytes }
}

fn program_id() -> Address {
    key(7)
}

fn ok_ctx(owner: Address, vault: Address) -> InitializeVault {
    InitializeVault {
        vault_address: vault,
        vault_initialized: false,
        authority: owner,
        authority_is_signer: true,
        authority_lamports: 1_000_000,
        allocation_cost: 890_880,
    }
}

#[test]
fn derivation_is_deterministic() {
    let owner = key(1);
    let program = program_id();
    let (a1, b1) = derive_vault_address(&owner, &program).unwrap();
    let (a2, b2) = derive_vault_address(&owner, &program).unwrap();
    assert_eq!(a1.bytes, a2.bytes);
    assert_eq!(b1, b2);
}

#[test]
fn derivation_matches_runtime_search() {
    let owner = key(2);
    let program = program_id();
    let (a, bump) = derive_vault_address(&owner, &program).unwrap();
    let pk = solana_pubkey::Pubkey::new_from_array(program.bytes);
    let (expected, expected_bump) =
        solana_pubkey::Pubkey::find_program_address(&[b"vault", &owner.bytes], &pk);
    assert_eq!(a.bytes, expected.to_bytes());
    assert_eq!(bump, expected_bump);
}

#[test]
fn derived_address_is_off_curve() {
    let owner = key(3);
    let (a, _) = derive_vault_address(&owner, &program_id()).unwrap();
    let pk = solana_pubkey::Pubkey::new_from_array(a.bytes);
    assert!(!pk.is_on_curve());
}

#[test]
fn distinct_owners_get_distinct_addresses() {
    let program = program_id();
    let (a1, _) = derive_vault_address(&key(4), &program).unwrap();
    let (a2, _) = derive_vault_address(&key(5), &program).unwrap();
    assert_ne!(a1.bytes, a2.bytes);
}

#[test]
fn initialize_writes_owner_clock_and_zero_value() {
    let owner = key(10);
    let program = program_id();
    let (vault, _) = derive_vault_address(&owner, &program).unwrap();
    let ctx = ok_ctx(owner, vault);
    let rec = initialize_vault(&ctx, &program, Some(42)).unwrap();
    assert_eq!(rec.owner.bytes, owner.bytes);
    assert_eq!(rec.created_at, 42);
    assert_eq!(rec.value, 0);
}

#[test]
fn initialize_uses_the_clock_of_this_call() {
    let owner = key(11);
    let program = program_id();
    let (vault, _) = derive_vault_address(&owner, &program).unwrap();
    let ctx = ok_ctx(owner, vault);
    let first = initialize_vault(&ctx, &program, Some(100)).unwrap();
    let second = initialize_vault(&ctx, &program, Some(200)).unwrap();
    assert_eq!(first.created_at, 100);
    assert_eq!(second.created_at, 200);
}

#[test]
fn initialize_rejects_wrong_address() {
    let owner = key(12);
    let program = program_id();
    let ctx = ok_ctx(owner, key(13));
    assert_eq!(
        initialize_vault(&ctx, &program, Some(1)),
        Err(VaultError::InvalidVaultAddress)
    );
}

#[test]
fn initialize_rejects_second_creation() {
    let owner = key(14);
    let program = program_id();
    let (vault, _) = derive_vault_address(&owner, &program).unwrap();
    let mut ctx = ok_ctx(owner, vault);
    ctx.vault_initialized = true;
    assert_eq!(
        initialize_vault(&ctx, &program, Some(1)),
        Err(VaultError::AlreadyInitialized)
    );
}

#[test]
fn initialize_rejects_missing_signer() {
    let owner = key(15);
    let program = program_id();
    let (vault, _) = derive_vault_address(&owner, &program).unwrap();
    let mut ctx = ok_ctx(owner, vault);
    ctx.authority_is_signer = false;
    assert_eq!(
        initialize_vault(&ctx, &program, Some(1)),
        Err(VaultError::MissingSignerAuthorization)
    );
}

#[test]
fn initialize_rejects_insufficient_funds() {
    let owner = key(16);
    let program = program_id();
    let (vault, _) = derive_vault_address(&owner, &program).unwrap();
    let mut ctx = ok_ctx(owner, vault);
    ctx.authority_lamports = ctx.allocation_cost - 1;
    assert_eq!(
        initialize_vault(&ctx, &program, Some(1)),
        Err(VaultError::InsufficientFunds)
    );
    ctx.authority_lamports = ctx.allocation_cost;
    assert!(initialize_vault(&ctx, &program, Some(1)).is_ok());
}

#[test]
fn initialize_rejects_unavailable_clock() {
    let owner = key(17);
    let program = program_id();
    let (vault, _) = derive_vault_address(&owner, &program).unwrap();
    let ctx = ok_ctx(owner, vault);
    assert_eq!(
        initialize_vault(&ctx, &program, None),
        Err(VaultError::ClockUnavailable)
    );
}

#[test]
fn ledger_creates_each_vault_exactly_once() {
    let program = program_id();
    let mut ledger = Ledger::new(program, 890_880);
    let o1 = key(20);
    let o2 = key(21);
    let (v1, _) = derive_vault_address(&o1, &program).unwrap();
    let (v2, _) = derive_vault_address(&o2, &program).unwrap();

    let rec = ledger
        .process_initialize(&v1, &o1, true, 1_000_000, Some(1000))
        .unwrap();
    assert_eq!(rec.owner.bytes, o1.bytes);
    assert_eq!(rec.created_at, 1000);
    assert_eq!(rec.value, 0);

    let again = ledger.process_initialize(&v1, &o1, true, 1_000_000, Some(2000));
    assert_eq!(again, Err(VaultError::AlreadyInitialized));
    let stored = ledger.get_record(&v1).unwrap();
    assert_eq!(stored.created_at, 1000);
    assert_eq!(stored.owner.bytes, o1.bytes);
    assert_eq!(stored.value, 0);

    let rec2 = ledger
        .process_initialize(&v2, &o2, true, 1_000_000, Some(3000))
        .unwrap();
    assert_eq!(rec2.owner.bytes, o2.bytes);
    assert_ne!(v1.bytes, v2.bytes);
    assert!(ledger.get_record(&v2).is_some());
}

#[test]
fn ledger_rejects_a_spoofed_address() {
    let program = program_id();
    let mut ledger = Ledger::new(program, 890_880);
    let o1 = key(22);
    let spoofed = key(23);
    let r = ledger.process_initialize(&spoofed, &o1, true, 1_000_000, Some(1));
    assert_eq!(r, Err(VaultError::InvalidVaultAddress));
    assert!(ledger.get_record(&spoofed).is_none());
}

#[test]
fn record_bytes_round_trip() {
    let rec = VaultData {
        owner: key(30),
        created_at: -123_456_789,
        value: 987_654_321,
    };
    let bytes = encode_record(&rec);
    assert_eq!(bytes.len(), VAULT_RECORD_SPACE);
    let back = decode_record(&bytes).unwrap();
    assert_eq!(back.owner.bytes, rec.owner.bytes);
    assert_eq!(back.created_at, rec.created_at);
    assert_eq!(back.value, rec.value);
    assert!(addr_eq(&back.owner, &rec.owner));
}

#[test]
fn record_bytes_have_the_fixed_layout() {
    let rec = VaultData {
        owner: key(31),
        created_at: 1,
        value: 2,
    };
    let bytes = encode_record(&rec);
    assert_eq!(&bytes[0..8], b"vaultrec");
    assert_eq!(&bytes[8..40], &key(31).bytes[..]);
    assert_eq!(&bytes[40..48], &[1, 0, 0, 0, 0, 0, 0, 0]);
    assert_eq!(&bytes[48..56], &[2, 0, 0, 0, 0, 0, 0, 0]);

    let negative = VaultData {
        owner: key(31),
        created_at: -1,
        value: 0,
    };
    let neg_bytes = encode_record(&negative);
    assert_eq!(&neg_bytes[40..48], &[0xff; 8]);
    assert_eq!(&neg_bytes[48..56], &[0; 8]);
}

#[test]
fn record_decode_rejects_bad_input() {
    let rec = VaultData {
        owner: key(32),
        created_at: 5,
        value: 6,
    };
    let mut bytes = encode_record(&rec);
    bytes.pop();
    assert!(decode_record(&bytes).is_none());

    let mut corrupt = encode_record(&rec);
    corrupt[0] = corrupt[0].wrapping_add(1);
    assert!(decode_record(&corrupt).is_none());

    assert!(decode_record(&Vec::new()).is_none());
}
