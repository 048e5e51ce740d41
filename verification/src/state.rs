use vstd::prelude::*;

use crate::addr::addr_eq;
use crate::addr::Address;
use crate::derive::derived_address_of;
use crate::derive::domain_tag;

verus! {

/// An asset-denominated balance account.
#[derive(Clone, Copy, Debug, PartialEq, Eq)]
pub struct TokenAccount {
    /// The asset the balance is denominated in.
    pub mint: Address,
    /// The identity allowed to move the balance.
    pub authority: Address,
    /// The current balance.
    pub amount: u64,
}

/// The persisted description of one in-flight swap. All fields are set at
/// creation and never mutated.
#[derive(Clone, Copy, Debug, PartialEq, Eq)]
pub struct EscrowRecord {
    /// The depositor's identity.
    pub maker: Address,
    /// A maker-chosen value disambiguating several simultaneous escrows by
    /// the same maker; part of the custody-derivation input.
    pub nonce: u64,
    /// The asset the maker deposited.
    pub asset_a: Address,
    /// The asset the maker wants in exchange.
    pub asset_b: Address,
    /// The quantity of `asset_b` the maker requires.
    pub receive_amount: u64,
    /// The bump proof for the derived custody address, stored so later
    /// operations can reconstruct the signing credential.
    pub custody_proof: u8,
}

/// One open escrow: the record and its vault, which are created together by
/// a deposit and destroyed together by settlement or refund.
#[derive(Clone, Copy, Debug, PartialEq, Eq)]
pub struct OpenEscrow {
    /// The derived record address, which is also the vault's sole transfer
    /// authority.
    pub address: Address,
    /// The persisted swap description.
    pub record: EscrowRecord,
    /// The custody account holding the maker's deposit of `asset_a`.
    pub vault: TokenAccount,
}

/// The slice of the ledger this program owns: every open escrow under one
/// program identity.
pub struct Ledger {
    /// The program identity threaded into every custody derivation.
    pub program_id: Address,
    /// All currently open escrows.
    pub escrows: Vec<OpenEscrow>,
    /// Every `(maker, nonce)` pair whose escrow was settled or refunded.
    /// Closed is terminal: the derived addresses of such a pair can never be
    /// reused, so creation under it is rejected for good and the maker must
    /// choose a fresh nonce.
    pub closed: Vec<(Address, u64)>,
}

/// Whether an open escrow is the one the pair `(maker, nonce)` names.
pub open spec fn key_matches(e: OpenEscrow, maker: Seq<u8>, nonce: u64) -> bool {
    e.record.maker@ == maker && e.record.nonce == nonce
}

/// Whether a closed-pair entry names the pair `(maker, nonce)`.
pub open spec fn closed_matches(c: (Address, u64), maker: Seq<u8>, nonce: u64) -> bool {
    c.0@ == maker && c.1 == nonce
}

impl OpenEscrow {
    /// The per-escrow invariant: amounts are positive, the swapped assets
    /// are distinct, the vault is denominated in the deposited asset, its
    /// sole transfer authority is the derived custody address, and the
    /// stored address and bump proof are exactly the custody derivation for
    /// `(program, maker, nonce)`.
    pub open spec fn wf(self, program: Seq<u8>) -> bool {
        &&& self.record.receive_amount > 0
        &&& self.record.asset_a@ != self.record.asset_b@
        &&& self.vault.mint@ == self.record.asset_a@
        &&& self.vault.authority@ == self.address@
        &&& self.vault.amount > 0
        &&& derived_address_of(program, domain_tag(), self.record.maker@, self.record.nonce)
            == Some((self.address@, self.record.custody_proof))
    }
}

impl Ledger {
    /// The ledger invariant: every open escrow is well formed, no two open
    /// escrows share a `(maker, nonce)` pair, and no open escrow carries a
    /// pair that was already closed.
    pub open spec fn wf(self) -> bool {
        &&& (forall|i: int|
            0 <= i < self.escrows@.len() ==> (#[trigger] self.escrows@[i]).wf(self.program_id@))
        &&& (forall|i: int, j: int|
            0 <= i < self.escrows@.len() && 0 <= j < self.escrows@.len() && i != j
                ==> !key_matches(
                #[trigger] self.escrows@[i],
                (#[trigger] self.escrows@[j]).record.maker@,
                self.escrows@[j].record.nonce,
            ))
        &&& (forall|i: int, j: int|
            0 <= i < self.escrows@.len() && 0 <= j < self.closed@.len() ==> !closed_matches(
                #[trigger] self.closed@[j],
                (#[trigger] self.escrows@[i]).record.maker@,
                self.escrows@[i].record.nonce,
            ))
    }

    /// A fresh ledger under the given program identity, with no open escrow
    /// and no closed pair.
    pub fn new(program_id: Address) -> (l: Ledger)
        ensures
            l.wf(),
            l.program_id == program_id,
            l.escrows@.len() == 0,
            l.closed@.len() == 0,
    {
        Ledger { program_id, escrows: Vec::new(), closed: Vec::new() }
    }
}

/// Whether the pair `(maker, nonce)` was closed by an earlier settlement or
/// refund.
pub open spec fn was_closed(l: Ledger, maker: Seq<u8>, nonce: u64) -> bool {
    exists|i: int|
        0 <= i < l.closed@.len() && closed_matches(#[trigger] l.closed@[i], maker, nonce)
}

/// Tells whether `(maker, nonce)` was closed by an earlier settlement or
/// refund.
pub fn key_was_closed(ledger: &Ledger, maker: &Address, nonce: u64) -> (r: bool)
    ensures
        r == was_closed(*ledger, maker@, nonce),
{
    let n = ledger.closed.len();
    let mut i: usize = 0;
    while i < n
        invariant
            n == ledger.closed@.len(),
            i <= n,
            forall|j: int| 0 <= j < i ==> !closed_matches(#[trigger] ledger.closed@[j], maker@, nonce),
        decreases n - i,
    {
        let c = &ledger.closed[i];
        if c.1 == nonce && addr_eq(&c.0, maker) {
            proof {
                assert(closed_matches(ledger.closed@[i as int], maker@, nonce));
            }
            return true;
        }
        i += 1;
    }
    false
}

/// Whether the ledger holds an open escrow for `(maker, nonce)`.
pub open spec fn has_escrow(l: Ledger, maker: Seq<u8>, nonce: u64) -> bool {
    exists|i: int| 0 <= i < l.escrows@.len() && key_matches(#[trigger] l.escrows@[i], maker, nonce)
}

/// The position of the open escrow for `(maker, nonce)`; meaningful only
/// when `has_escrow` holds, in which case the ledger invariant makes it
/// unique.
pub open spec fn escrow_idx(l: Ledger, maker: Seq<u8>, nonce: u64) -> int {
    choose|i: int| 0 <= i < l.escrows@.len() && key_matches(#[trigger] l.escrows@[i], maker, nonce)
}

/// The open escrow for `(maker, nonce)`; meaningful only when `has_escrow`
/// holds.
pub open spec fn escrow_at(l: Ledger, maker: Seq<u8>, nonce: u64) -> OpenEscrow {
    l.escrows@[escrow_idx(l, maker, nonce)]
}

/// In a well-formed ledger, any position holding the escrow for
/// `(maker, nonce)` is the position `escrow_idx` names.
pub proof fn lemma_escrow_idx_unique(l: Ledger, maker: Seq<u8>, nonce: u64, i: int)
    requires
        l.wf(),
        0 <= i < l.escrows@.len(),
        key_matches(l.escrows@[i], maker, nonce),
    ensures
        has_escrow(l, maker, nonce),
        escrow_idx(l, maker, nonce) == i,
{
    assert(has_escrow(l, maker, nonce));
    let k = escrow_idx(l, maker, nonce);
    assert(0 <= k < l.escrows@.len() && key_matches(l.escrows@[k], maker, nonce));
    if k != i {
        assert(!key_matches(l.escrows@[i], l.escrows@[k].record.maker@,
            l.escrows@[k].record.nonce));
        assert(false);
    }
}

/// Closing the escrow at position `k` — removing it from the open escrows
/// and recording its `(maker, nonce)` pair as closed — preserves the ledger
/// invariant; afterwards no open escrow carries the pair and the pair is
/// closed for good.
pub proof fn lemma_close_escrow(l: Ledger, l2: Ledger, k: int)
    requires
        l.wf(),
        0 <= k < l.escrows@.len(),
        l2.program_id == l.program_id,
        l2.escrows@ == l.escrows@.remove(k),
        l2.closed@ == l.closed@.push((l.escrows@[k].record.maker, l.escrows@[k].record.nonce)),
    ensures
        l2.wf(),
        !has_escrow(l2, l.escrows@[k].record.maker@, l.escrows@[k].record.nonce),
        was_closed(l2, l.escrows@[k].record.maker@, l.escrows@[k].record.nonce),
{
    let s = l.escrows@;
    let s2 = l2.escrows@;
    s.remove_ensures(k);
    assert forall|i: int| 0 <= i < s2.len() implies (#[trigger] s2[i]).wf(l2.program_id@) by {
        let i0: int = if i < k {
            i
        } else {
            i + 1
        };
        assert(s2[i] == s[i0]);
        assert(s[i0].wf(l.program_id@));
    }
    assert forall|i: int, j: int|
        0 <= i < s2.len() && 0 <= j < s2.len() && i != j implies !key_matches(
        #[trigger] s2[i],
        (#[trigger] s2[j]).record.maker@,
        s2[j].record.nonce,
    ) by {
        let i0: int = if i < k {
            i
        } else {
            i + 1
        };
        let j0: int = if j < k {
            j
        } else {
            j + 1
        };
        assert(s2[i] == s[i0]);
        assert(s2[j] == s[j0]);
        assert(!key_matches(s[i0], s[j0].record.maker@, s[j0].record.nonce));
    }
    let mk = l.escrows@[k].record.maker@;
    let nk = l.escrows@[k].record.nonce;
    assert forall|i: int| 0 <= i < s2.len() implies !key_matches(#[trigger] s2[i], mk, nk) by {
        let i0: int = if i < k {
            i
        } else {
            i + 1
        };
        assert(s2[i] == s[i0]);
        assert(!key_matches(s[i0], s[k].record.maker@, s[k].record.nonce));
    }
    let oldc = l.closed@;
    let c2 = l2.closed@;
    assert forall|i: int, j: int| 0 <= i < s2.len() && 0 <= j < c2.len() implies !closed_matches(
        #[trigger] c2[j],
        (#[trigger] s2[i]).record.maker@,
        s2[i].record.nonce,
    ) by {
        let i0: int = if i < k {
            i
        } else {
            i + 1
        };
        assert(s2[i] == s[i0]);
        if j < oldc.len() {
            assert(c2[j] == oldc[j]);
            assert(!closed_matches(oldc[j], s[i0].record.maker@, s[i0].record.nonce));
        } else {
            assert(c2[j] == (s[k].record.maker, s[k].record.nonce));
            assert(!key_matches(s[i0], s[k].record.maker@, s[k].record.nonce));
        }
    }
    assert(c2[oldc.len() as int] == (s[k].record.maker, s[k].record.nonce));
    assert(closed_matches(c2[oldc.len() as int], mk, nk));
}

/// Finds the open escrow for `(maker, nonce)`, if any.
pub fn find_escrow(ledger: &Ledger, maker: &Address, nonce: u64) -> (r: Option<usize>)
    requires
        ledger.wf(),
    ensures
        r is Some <==> has_escrow(*ledger, maker@, nonce),
        (r matches Some(i) ==> i < ledger.escrows@.len() && i == escrow_idx(
            *ledger,
            maker@,
            nonce,
        ) && key_matches(ledger.escrows@[i as int], maker@, nonce)),
{
    let n = ledger.escrows.len();
    let mut i: usize = 0;
    while i < n
        invariant
            ledger.wf(),
            n == ledger.escrows@.len(),
            i <= n,
            forall|j: int| 0 <= j < i ==> !key_matches(#[trigger] ledger.escrows@[j], maker@, nonce),
        decreases n - i,
    {
        let e = &ledger.escrows[i];
        if e.record.nonce == nonce && addr_eq(&e.record.maker, maker) {
            proof {
                lemma_escrow_idx_unique(*ledger, maker@, nonce, i as int);
            }
            return Some(i);
        }
        i += 1;
    }
    None
}

} // verus!
