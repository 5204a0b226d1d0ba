use vstd::prelude::*;

use crate::addr::{addr_eq, derived_vault_address, Address};
use crate::error::VaultError;
use crate::init::{initialize_outcome, initialize_vault, InitializeVault};
use crate::record::VaultData;

verus! {

/// A model of the runtime's account store for this program: the records it
/// holds, each bound to the storage address it lives at, together with the
/// program identity under which every address is derived and the fixed
/// charge for allocating one record.
///
/// Creation transactions are serialized against this store, so the
/// exactly-once guarantee is the store's invariant: per owner, at most one
/// record, stored at that owner's derived address.
pub struct Ledger {
    /// The records, each paired with the storage address holding it.
    pub vaults: Vec<(Address, VaultData)>,
    /// The owning program's identity.
    pub program: Address,
    /// What the runtime charges to allocate one record's storage.
    pub allocation_cost: u64,
}

impl Ledger {
    /// Is some record stored at address `a`?
    pub open spec fn has_vault_at(self, a: Seq<u8>) -> bool {
        exists|i: int| 0 <= i < self.vaults@.len() && self.vaults@[i].0@ == a
    }

    /// The record stored at address `a`.
    pub open spec fn record_at(self, a: Seq<u8>) -> VaultData
        recommends
            self.has_vault_at(a),
    {
        self.vaults@[choose|i: int|
            0 <= i < self.vaults@.len() && self.vaults@[i].0@ == a].1
    }

    /// The data-model invariant: every record sits at the address derived
    /// from its own owner (the storage address and the `owner` field can
    /// never disagree), and no two records share an address.
    pub open spec fn wf(self) -> bool {
        &&& forall|i: int|
            0 <= i < self.vaults@.len() ==> ((#[trigger] derived_vault_address(
                self.vaults@[i].1.owner@,
                self.program@,
            )) matches Some(p) && p.0 == self.vaults@[i].0@)
        &&& forall|i: int, j: int|
            0 <= i < j < self.vaults@.len() ==> self.vaults@[i].0@ != self.vaults@[j].0@
    }

    /// Exactly one record can exist per owner: under the invariant, two
    /// records with the same owner are the same record.
    pub proof fn lemma_one_vault_per_owner(self, i: int, j: int)
        requires
            self.wf(),
            0 <= i < self.vaults@.len(),
            0 <= j < self.vaults@.len(),
            self.vaults@[i].1.owner@ == self.vaults@[j].1.owner@,
        ensures
            i == j,
    {
        let di = derived_vault_address(self.vaults@[i].1.owner@, self.program@);
        let dj = derived_vault_address(self.vaults@[j].1.owner@, self.program@);
        assert(di == dj);
        if i < j {
            assert(self.vaults@[i].0@ != self.vaults@[j].0@);
        } else if j < i {
            assert(self.vaults@[j].0@ != self.vaults@[i].0@);
        }
    }

    /// An empty store for a program identity: well formed, no records.
    pub fn new(program: Address, allocation_cost: u64) -> (l: Ledger)
        ensures
            l.wf(),
            l.vaults@.len() == 0,
            l.program == program,
            l.allocation_cost == allocation_cost,
    {
        Ledger { vaults: Vec::new(), program, allocation_cost }
    }

    /// Is some record stored at address `a`?
    pub fn contains(&self, a: &Address) -> (r: bool)
        ensures
            r == self.has_vault_at(a@),
    {
        let mut i: usize = 0;
        while i < self.vaults.len()
            invariant
                0 <= i <= self.vaults@.len(),
                forall|k: int| 0 <= k < i ==> self.vaults@[k].0@ != a@,
            decreases self.vaults@.len() - i,
        {
            if addr_eq(&self.vaults[i].0, a) {
                return true;
            }
            i = i + 1;
        }
        false
    }

    /// The record stored at address `a`, if any.
    pub fn get_record(&self, a: &Address) -> (r: Option<&VaultData>)
        requires
            self.wf(),
        ensures
            r is Some <==> self.has_vault_at(a@),
            (r matches Some(v) ==> *v == self.record_at(a@)),
    {
        let mut i: usize = 0;
        while i < self.vaults.len()
            invariant
                self.wf(),
                0 <= i <= self.vaults@.len(),
                forall|k: int| 0 <= k < i ==> self.vaults@[k].0@ != a@,
            decreases self.vaults@.len() - i,
        {
            if addr_eq(&self.vaults[i].0, a) {
                proof {
                    let j = choose|j: int|
                        0 <= j < self.vaults@.len() && self.vaults@[j].0@ == a@;
                    if j < i as int {
                        assert(self.vaults@[j].0@ != self.vaults@[i as int].0@);
                    } else if (i as int) < j {
                        assert(self.vaults@[i as int].0@ != self.vaults@[j].0@);
                    }
                }
                return Some(&self.vaults[i].1);
            }
            i = i + 1;
        }
        None
    }

    /// The context one creation transaction presents, as this store sees it.
    pub open spec fn initialize_ctx(
        self,
        vault_address: Address,
        authority: Address,
        authority_is_signer: bool,
        authority_lamports: u64,
    ) -> InitializeVault {
        InitializeVault {
            vault_address,
            vault_initialized: self.has_vault_at(vault_address@),
            authority,
            authority_is_signer,
            authority_lamports,
            allocation_cost: self.allocation_cost,
        }
    }

    /// The outcome one creation transaction has against this store.
    pub open spec fn initialize_result(
        self,
        vault_address: Address,
        authority: Address,
        authority_is_signer: bool,
        authority_lamports: u64,
        clock: Option<i64>,
    ) -> Result<VaultData, VaultError> {
        initialize_outcome(
            self.initialize_ctx(vault_address, authority, authority_is_signer, authority_lamports),
            self.program@,
            clock,
        )
    }

    /// Execute one creation transaction against the store, all or nothing:
    /// on success the new record is bound at the supplied (and necessarily
    /// derived) address; on any failure the store is untouched.
    pub fn process_initialize(
        &mut self,
        vault_address: &Address,
        authority: &Address,
        authority_is_signer: bool,
        authority_lamports: u64,
        clock: Option<i64>,
    ) -> (r: Result<VaultData, VaultError>)
        requires
            old(self).wf(),
        ensures
            final(self).wf(),
            final(self).program == old(self).program,
            final(self).allocation_cost == old(self).allocation_cost,
            r == old(self).initialize_result(
                *vault_address,
                *authority,
                authority_is_signer,
                authority_lamports,
                clock,
            ),
            (r is Err ==> final(self).vaults@ == old(self).vaults@),
            (r matches Ok(v) ==> final(self).vaults@ == old(self).vaults@.push(
                ((*vault_address, v)),
            ) && final(self).record_at(vault_address@) == v),
    {
        let ctx = InitializeVault {
            vault_address: *vault_address,
            vault_initialized: self.contains(vault_address),
            authority: *authority,
            authority_is_signer,
            authority_lamports,
            allocation_cost: self.allocation_cost,
        };
        let r = initialize_vault(&ctx, &self.program, clock);
        match r {
            Ok(v) => {
                self.vaults.push((*vault_address, v));
                proof {
                    lemma_push_preserves_wf(*old(self), *self, *vault_address, v);
                }
                Ok(v)
            },
            Err(e) => Err(e),
        }
    }
}

/// Pushing a fresh record whose address is derived from its own owner
/// preserves the store invariant and binds the record at that address.
proof fn lemma_push_preserves_wf(l0: Ledger, l1: Ledger, a: Address, v: VaultData)
    requires
        l0.wf(),
        !l0.has_vault_at(a@),
        derived_vault_address(v.owner@, l0.program@) matches Some(p) && p.0 == a@,
        l1.vaults@ == l0.vaults@.push((a, v)),
        l1.program == l0.program,
    ensures
        l1.wf(),
        l1.has_vault_at(a@),
        l1.record_at(a@) == v,
{
    let n = l0.vaults@.len() as int;
    assert(l1.vaults@[n] == (a, v));
    assert forall|i: int|
        0 <= i < l1.vaults@.len() implies ((#[trigger] derived_vault_address(
        l1.vaults@[i].1.owner@,
        l1.program@,
    )) matches Some(p) && p.0 == l1.vaults@[i].0@) by {
        if i < n {
            assert(l1.vaults@[i] == l0.vaults@[i]);
        }
    }
    assert forall|i: int, j: int|
        0 <= i < j < l1.vaults@.len() implies l1.vaults@[i].0@ != l1.vaults@[j].0@ by {
        if j < n {
            assert(l1.vaults@[i] == l0.vaults@[i]);
            assert(l1.vaults@[j] == l0.vaults@[j]);
        } else {
            assert(l1.vaults@[i] == l0.vaults@[i]);
            assert(l1.vaults@[j].0@ == a@);
        }
    }
    assert(l1.has_vault_at(a@));
    let c = choose|i: int| 0 <= i < l1.vaults@.len() && l1.vaults@[i].0@ == a@;
    if c != n {
        assert(l1.vaults@[c] == l0.vaults@[c]);
    }
}

/// Exactly-once: for a fresh owner, the first initialization succeeds and
/// writes a record with a zero value, the owner itself, and the clock value
/// of that call; any second initialization against the resulting store for
/// the same owner and address fails with `AlreadyInitialized`, whatever
/// signer, funds or clock it brings, and the first record stays bound there
/// unchanged.
pub proof fn lemma_exactly_once(
    l0: Ledger,
    l1: Ledger,
    vault_address: Address,
    authority: Address,
    lamports1: u64,
    t0: i64,
    signer2: bool,
    lamports2: u64,
    clock2: Option<i64>,
    v: VaultData,
)
    requires
        l0.wf(),
        l0.initialize_result(vault_address, authority, true, lamports1, Some(t0)) == Ok::<
            VaultData,
            VaultError,
        >(v),
        l1.vaults@ == l0.vaults@.push((vault_address, v)),
        l1.program == l0.program,
        l1.allocation_cost == l0.allocation_cost,
    ensures
        v == (VaultData { owner: authority, created_at: t0, value: 0 }),
        l1.wf(),
        l1.initialize_result(vault_address, authority, signer2, lamports2, clock2) == Err::<
            VaultData,
            VaultError,
        >(VaultError::AlreadyInitialized),
        l1.record_at(vault_address@) == v,
{
    lemma_push_preserves_wf(l0, l1, vault_address, v);
}

} // verus!
