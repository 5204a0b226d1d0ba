use vstd::prelude::*;

use crate::error::VaultError;
use anchor_lang::solana_program::pubkey::Pubkey;

verus! {

/// A 32-byte public-key identity or storage address on the ledger.
///
/// Its view is the sequence of its 32 bytes.
#[derive(Clone, Copy, Debug, PartialEq, Eq)]
pub struct Address {
    pub bytes: [u8; 32],
}

impl View for Address {
    type V = Seq<u8>;

    open spec fn view(&self) -> Seq<u8> {
        self.bytes@
    }
}

/// The fixed domain-separation label (the bytes of `"vault"`) under which
/// every vault address is derived.
pub open spec fn vault_label_spec() -> Seq<u8> {
    seq![118u8, 97u8, 117u8, 108u8, 116u8]
}

/// The domain-separation label as a byte vector.
pub fn vault_label() -> (l: Vec<u8>)
    ensures
        l@ == vault_label_spec(),
{
    let mut l: Vec<u8> = Vec::new();
    l.push(118u8);
    l.push(97u8);
    l.push(117u8);
    l.push(108u8);
    l.push(116u8);
    proof {
        assert(l@ =~= vault_label_spec());
    }
    l
}

/// Byte-wise equality of two addresses.
pub fn addr_eq(a: &Address, b: &Address) -> (r: bool)
    ensures
        r == (a@ == b@),
{
    let mut i: usize = 0;
    while i < 32
        invariant
            0 <= i <= 32,
            forall|j: int| 0 <= j < i ==> a.bytes@[j] == b.bytes@[j],
        decreases 32 - i,
    {
        if a.bytes[i] != b.bytes[i] {
            assert(a@[i as int] != b@[i as int]);
            return false;
        }
        i = i + 1;
    }
    proof {
        assert(a@ =~= b@);
    }
    true
}

/// What the ledger runtime's curve-aware derivation returns for one candidate:
/// the 32 hash bytes of `(label, owner, bump, program)` when that hash is not
/// a point on the signing curve, and `None` when it is. A pure function of
/// its arguments, identical on every machine.
pub uninterp spec fn pda_candidate(label: Seq<u8>, owner: Seq<u8>, bump: u8, program: Seq<u8>) -> Option<Seq<u8>>;

/// Relies on `Pubkey::create_program_address` (re-exported by `anchor_lang`):
/// it hashes the seeds and program id through SHA-256 with a fixed marker and
/// fails exactly when the resulting point lies on the ed25519 curve; with
/// three seeds of at most 32 bytes each, no other error can occur.
#[verifier::external_body]
fn derive_candidate(label: &Vec<u8>, owner: &Address, bump: u8, program: &Address) -> (r: Option<Address>)
    requires
        label@.len() <= 32,
    ensures
        (match r {
            Some(a) => pda_candidate(label@, owner@, bump, program@) == Some(a@),
            None => pda_candidate(label@, owner@, bump, program@) is None,
        }),
{
    let program_id = Pubkey::new_from_array(program.bytes);
    let bump_seed: [u8; 1] = [bump];
    let seeds: [&[u8]; 3] = [label.as_slice(), &owner.bytes, &bump_seed];
    match Pubkey::create_program_address(&seeds, &program_id) {
        Ok(a) => Some(Address { bytes: a.to_bytes() }),
        Err(_) => None,
    }
}

/// The first off-curve candidate met when the bump runs from `start` down
/// to 1, together with its bump.
pub open spec fn derive_from_bump(label: Seq<u8>, owner: Seq<u8>, program: Seq<u8>, start: int) -> Option<(Seq<u8>, u8)>
    decreases start,
{
    if start < 1 {
        None
    } else {
        match pda_candidate(label, owner, start as u8, program) {
            Some(a) => Some((a, start as u8)),
            None => derive_from_bump(label, owner, program, start - 1),
        }
    }
}

/// The canonical vault address of an owner under a program identity: the
/// first off-curve candidate for the fixed label, searching the bump from
/// 255 downward.
pub open spec fn derived_vault_address(owner: Seq<u8>, program: Seq<u8>) -> Option<(Seq<u8>, u8)> {
    derive_from_bump(vault_label_spec(), owner, program, 255)
}

/// Derive the canonical vault address of `owner` under `program`.
///
/// Pure: the result is a function of the two inputs alone, so any verifier
/// can recompute it. Fails with `AddressDerivationExhausted` only when every
/// bump in the search range maps onto the curve.
pub fn derive_vault_address(owner: &Address, program: &Address) -> (r: Result<(Address, u8), VaultError>)
    ensures
        (match derived_vault_address(owner@, program@) {
            Some((a, b)) => r matches Ok(p) && p.0@ == a && p.1 == b,
            None => r matches Err(e) && e == VaultError::AddressDerivationExhausted,
        }),
{
    let label = vault_label();
    let mut bump: u8 = 255;
    loop
        invariant
            1 <= bump <= 255,
            label@ == vault_label_spec(),
            derived_vault_address(owner@, program@) == derive_from_bump(
                vault_label_spec(),
                owner@,
                program@,
                bump as int,
            ),
        decreases bump,
    {
        match derive_candidate(&label, owner, bump, program) {
            Some(a) => {
                return Ok((a, bump));
            }
            None => {}
        }
        if bump == 1 {
            assert(derive_from_bump(vault_label_spec(), owner@, program@, 1) == derive_from_bump(
                vault_label_spec(),
                owner@,
                program@,
                0,
            ));
            return Err(VaultError::AddressDerivationExhausted);
        }
        bump = bump - 1;
    }
}

proof fn lemma_derive_from_bump_props(
    label: Seq<u8>,
    owner: Seq<u8>,
    program: Seq<u8>,
    start: int,
    a: Seq<u8>,
    b: u8,
)
    requires
        0 <= start <= 255,
        derive_from_bump(label, owner, program, start) == Some((a, b)),
    ensures
        pda_candidate(label, owner, b, program) == Some(a),
        1 <= b <= start,
        forall|b2: u8| b < b2 <= start ==> pda_candidate(label, owner, b2, program) is None,
    decreases start,
{
    if start >= 1 {
        match pda_candidate(label, owner, start as u8, program) {
            Some(_) => {}
            None => {
                lemma_derive_from_bump_props(label, owner, program, start - 1, a, b);
                assert forall|b2: u8| b < b2 <= start implies pda_candidate(
                    label,
                    owner,
                    b2,
                    program,
                ) is None by {
                    if b2 as int == start {
                        assert(pda_candidate(label, owner, start as u8, program) is None);
                    }
                }
            }
        }
    }
}

/// Off-curve guarantee: a successful derivation returns exactly the candidate
/// that passed the off-curve test at its bump, and every bump above it was
/// rejected as on-curve, so the accepted bump is canonical.
pub proof fn lemma_derived_accepted_off_curve(owner: Seq<u8>, program: Seq<u8>, a: Seq<u8>, b: u8)
    requires
        derived_vault_address(owner, program) == Some((a, b)),
    ensures
        pda_candidate(vault_label_spec(), owner, b, program) == Some(a),
        1 <= b <= 255,
        forall|b2: u8| b < b2 <= 255 ==> pda_candidate(vault_label_spec(), owner, b2, program) is None,
{
    lemma_derive_from_bump_props(vault_label_spec(), owner, program, 255, a, b);
}

/// Determinism: the derived address is a function of the owner and program
/// identities alone, so deriving twice from the same inputs yields the
/// identical (address, bump) pair.
pub proof fn lemma_derivation_deterministic(
    owner: Seq<u8>,
    program: Seq<u8>,
    r1: Option<(Seq<u8>, u8)>,
    r2: Option<(Seq<u8>, u8)>,
)
    requires
        r1 == derived_vault_address(owner, program),
        r2 == derived_vault_address(owner, program),
    ensures
        r1 == r2,
{
}

} // verus!
