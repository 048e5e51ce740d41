//! A two-party, trust-minimized atomic-swap escrow.
//!
//! A maker deposits a quantity of asset A into a custody vault and names the
//! quantity of asset B it wants in exchange; any taker who pays that quantity
//! of asset B receives the custodied asset A, and the maker receives the
//! asset B. The maker may instead cancel before a taker arrives and reclaim
//! the deposit. Each escrow's custody authority is an address derived
//! deterministically from the maker's identity and a maker-chosen nonce, so
//! no private key for it exists and only these handlers can move vault funds.

use vstd::prelude::*;

mod addr;
mod derive;
mod laws;
mod refund;
mod state;

pub use addr::addr_eq;
pub use addr::Address;
pub use derive::derive_custody;
pub use derive::derived_address_of;
pub use derive::domain_tag;
pub use derive::escrow_tag;
pub use state::closed_matches;
pub use state::escrow_at;
pub use state::escrow_idx;
pub use state::find_escrow;
pub use state::has_escrow;
pub use state::key_matches;
pub use state::key_was_closed;
pub use state::was_closed;
pub use state::lemma_escrow_idx_unique;
pub use laws::lemma_closed_pair_cannot_reopen;
pub use laws::lemma_closed_stays_closed;
pub use laws::lemma_make_accepted_iff_funded;
pub use laws::lemma_mutual_exclusion;
pub use laws::lemma_take_accepted_only_if;
pub use laws::lemma_refund_only_by_maker;
pub use refund::refund_result;
pub use refund::Refund;
pub use state::lemma_close_escrow;
pub use state::EscrowRecord;
pub use state::Ledger;
pub use state::OpenEscrow;
pub use state::TokenAccount;

verus! {

/// Why an operation was rejected. Every rejection is total: the ledger and
/// every account look exactly as they did before the call.
#[derive(Clone, Copy, Debug, PartialEq, Eq)]
pub enum EscrowError {
    /// The signer is missing or is not the identity allowed to act: a
    /// refund attempted by someone other than the stored maker, or a
    /// spend from a holding account the caller does not own.
    AuthorizationError,
    /// A supplied account's stored relationship (maker, mint, authority or
    /// derived address) does not match what the escrow expects; also an
    /// attempt to create an escrow whose derived address is already taken,
    /// or was used by a closed escrow — closed is terminal, so reopening a
    /// `(maker, nonce)` pair needs a fresh nonce.
    ConstraintMismatch,
    /// The deposit or payment exceeds the available balance.
    InsufficientFunds,
    /// A scalar argument is zero or otherwise out of range.
    InvalidArgument,
    /// The target escrow record and vault do not exist: already settled,
    /// already refunded, or never created.
    NotFound,
}

/// What `make` returns, decided by its checks in order: zero amounts are
/// invalid; the two assets must differ; the maker's holding account must be
/// denominated in the deposited asset and owned by the maker; the derived
/// record address must be free — neither open now nor ever closed, since a
/// closed pair is terminal and needs a fresh nonce; the deposit must be
/// covered; and the custody derivation must yield an address.
pub open spec fn make_result(
    l: Ledger,
    maker: Address,
    nonce: u64,
    asset_a: Address,
    asset_b: Address,
    receive_amount: u64,
    deposit_amount: u64,
    maker_ata_a: TokenAccount,
) -> Result<(), EscrowError> {
    if receive_amount == 0 || deposit_amount == 0 {
        Err(EscrowError::InvalidArgument)
    } else if asset_a@ == asset_b@ {
        Err(EscrowError::ConstraintMismatch)
    } else if maker_ata_a.mint@ != asset_a@ {
        Err(EscrowError::ConstraintMismatch)
    } else if maker_ata_a.authority@ != maker@ {
        Err(EscrowError::AuthorizationError)
    } else if has_escrow(l, maker@, nonce) {
        Err(EscrowError::ConstraintMismatch)
    } else if was_closed(l, maker@, nonce) {
        Err(EscrowError::ConstraintMismatch)
    } else if maker_ata_a.amount < deposit_amount {
        Err(EscrowError::InsufficientFunds)
    } else if derived_address_of(l.program_id@, domain_tag(), maker@, nonce) is None {
        Err(EscrowError::ConstraintMismatch)
    } else {
        Ok(())
    }
}

/// Opens an escrow: creates the record and the vault at the derived custody
/// address and moves `deposit_amount` of `asset_a` from the maker's holding
/// account into the vault, all or nothing.
pub fn make(
    ledger: &mut Ledger,
    maker: &Address,
    nonce: u64,
    asset_a: &Address,
    asset_b: &Address,
    receive_amount: u64,
    deposit_amount: u64,
    maker_ata_a: &mut TokenAccount,
) -> (r: Result<(), EscrowError>)
    requires
        old(ledger).wf(),
    ensures
        final(ledger).wf(),
        final(ledger).program_id == old(ledger).program_id,
        r == make_result(
            *old(ledger),
            *maker,
            nonce,
            *asset_a,
            *asset_b,
            receive_amount,
            deposit_amount,
            *old(maker_ata_a),
        ),
        r is Ok ==> ({
            let e = final(ledger).escrows@.last();
            &&& final(ledger).escrows@ == old(ledger).escrows@.push(e)
            &&& e.record.maker@ == maker@
            &&& e.record.nonce == nonce
            &&& e.record.asset_a@ == asset_a@
            &&& e.record.asset_b@ == asset_b@
            &&& e.record.receive_amount == receive_amount
            &&& e.vault.amount == deposit_amount
            &&& e.vault.mint@ == asset_a@
            &&& e.vault.authority@ == e.address@
            &&& Some((e.address@, e.record.custody_proof)) == derived_address_of(
                old(ledger).program_id@,
                domain_tag(),
                maker@,
                nonce,
            )
            &&& final(maker_ata_a).amount == old(maker_ata_a).amount - deposit_amount
            &&& final(maker_ata_a).mint == old(maker_ata_a).mint
            &&& final(maker_ata_a).authority == old(maker_ata_a).authority
            &&& has_escrow(*final(ledger), maker@, nonce)
            &&& final(ledger).closed@ == old(ledger).closed@
        }),
        r is Err ==> *final(ledger) == *old(ledger) && *final(maker_ata_a) == *old(maker_ata_a),
{
    if receive_amount == 0 || deposit_amount == 0 {
        return Err(EscrowError::InvalidArgument);
    }
    if addr_eq(asset_a, asset_b) {
        return Err(EscrowError::ConstraintMismatch);
    }
    if !addr_eq(&maker_ata_a.mint, asset_a) {
        return Err(EscrowError::ConstraintMismatch);
    }
    if !addr_eq(&maker_ata_a.authority, maker) {
        return Err(EscrowError::AuthorizationError);
    }
    if find_escrow(ledger, maker, nonce).is_some() {
        return Err(EscrowError::ConstraintMismatch);
    }
    if key_was_closed(ledger, maker, nonce) {
        return Err(EscrowError::ConstraintMismatch);
    }
    if maker_ata_a.amount < deposit_amount {
        return Err(EscrowError::InsufficientFunds);
    }
    match derive_custody(&ledger.program_id, maker, nonce) {
        None => Err(EscrowError::ConstraintMismatch),
        Some((custody_address, custody_proof)) => {
            maker_ata_a.amount = maker_ata_a.amount - deposit_amount;
            let record = EscrowRecord {
                maker: *maker,
                nonce,
                asset_a: *asset_a,
                asset_b: *asset_b,
                receive_amount,
                custody_proof,
            };
            let vault = TokenAccount {
                mint: *asset_a,
                authority: custody_address,
                amount: deposit_amount,
            };
            let entry = OpenEscrow { address: custody_address, record, vault };
            ledger.escrows.push(entry);
            proof {
                let s = ledger.escrows@;
                let olds = old(ledger).escrows@;
                let last: int = olds.len() as int;
                assert(s[last] == entry);
                assert forall|i: int| 0 <= i < s.len() implies (#[trigger] s[i]).wf(
                    ledger.program_id@,
                ) by {
                    if i < last {
                        assert(s[i] == olds[i]);
                        assert(olds[i].wf(old(ledger).program_id@));
                    } else {
                        assert(entry.wf(ledger.program_id@));
                    }
                }
                assert forall|i: int, j: int|
                    0 <= i < s.len() && 0 <= j < s.len() && i != j implies !key_matches(
                    #[trigger] s[i],
                    (#[trigger] s[j]).record.maker@,
                    s[j].record.nonce,
                ) by {
                    if i < last && j < last {
                        assert(!key_matches(olds[i], olds[j].record.maker@, olds[j].record.nonce));
                    } else if j == last {
                        assert(!key_matches(olds[i], maker@, nonce));
                    } else {
                        if key_matches(entry, s[j].record.maker@, s[j].record.nonce) {
                            assert(key_matches(olds[j], maker@, nonce));
                            assert(false);
                        }
                    }
                }
                assert forall|i: int, j: int|
                    0 <= i < s.len() && 0 <= j < ledger.closed@.len() implies !closed_matches(
                    #[trigger] ledger.closed@[j],
                    (#[trigger] s[i]).record.maker@,
                    s[i].record.nonce,
                ) by {
                    if i < last {
                        assert(s[i] == olds[i]);
                        assert(!closed_matches(
                            old(ledger).closed@[j],
                            olds[i].record.maker@,
                            olds[i].record.nonce,
                        ));
                    } else {
                        assert(!closed_matches(old(ledger).closed@[j], maker@, nonce));
                    }
                }
                assert(key_matches(s[last], maker@, nonce));
                assert(has_escrow(*ledger, maker@, nonce));
            }
            Ok(())
        },
    }
}

/// What `take` returns, decided by its checks in order: the escrow must
/// exist; the stored asset identities must match the supplied ones; the
/// taker's paying account must hold the requested asset and belong to the
/// taker; the maker's receiving account and the taker's receiving account
/// must match asset and owner; the replayed custody derivation must match
/// the stored record; and the taker must cover the requested amount.
pub open spec fn take_result(
    l: Ledger,
    taker: Address,
    maker: Address,
    nonce: u64,
    asset_a: Address,
    asset_b: Address,
    taker_ata_b: TokenAccount,
    maker_ata_b: TokenAccount,
    taker_ata_a: TokenAccount,
) -> Result<(), EscrowError> {
    if !has_escrow(l, maker@, nonce) {
        Err(EscrowError::NotFound)
    } else {
        let e = escrow_at(l, maker@, nonce);
        if e.record.asset_a@ != asset_a@ || e.record.asset_b@ != asset_b@ {
            Err(EscrowError::ConstraintMismatch)
        } else if taker_ata_b.mint@ != asset_b@ {
            Err(EscrowError::ConstraintMismatch)
        } else if taker_ata_b.authority@ != taker@ {
            Err(EscrowError::AuthorizationError)
        } else if maker_ata_b.mint@ != asset_b@ || maker_ata_b.authority@ != maker@ {
            Err(EscrowError::ConstraintMismatch)
        } else if taker_ata_a.mint@ != asset_a@ || taker_ata_a.authority@ != taker@ {
            Err(EscrowError::ConstraintMismatch)
        } else if derived_address_of(l.program_id@, domain_tag(), maker@, nonce) != Some(
            (e.address@, e.record.custody_proof),
        ) {
            Err(EscrowError::ConstraintMismatch)
        } else if taker_ata_b.amount < e.record.receive_amount {
            Err(EscrowError::InsufficientFunds)
        } else {
            Ok(())
        }
    }
}

/// Settles an escrow: moves the requested amount of `asset_b` from the taker
/// to the maker, moves the vault's whole `asset_a` balance to the taker
/// under the custody authority, and closes the record and the vault, all or
/// nothing.
pub fn take(
    ledger: &mut Ledger,
    taker: &Address,
    maker: &Address,
    nonce: u64,
    asset_a: &Address,
    asset_b: &Address,
    taker_ata_b: &mut TokenAccount,
    maker_ata_b: &mut TokenAccount,
    taker_ata_a: &mut TokenAccount,
) -> (r: Result<(), EscrowError>)
    requires
        old(ledger).wf(),
        has_escrow(*old(ledger), maker@, nonce) ==> ({
            let e = escrow_at(*old(ledger), maker@, nonce);
            &&& old(maker_ata_b).amount + e.record.receive_amount <= u64::MAX
            &&& old(taker_ata_a).amount + e.vault.amount <= u64::MAX
        }),
    ensures
        final(ledger).wf(),
        final(ledger).program_id == old(ledger).program_id,
        r == take_result(
            *old(ledger),
            *taker,
            *maker,
            nonce,
            *asset_a,
            *asset_b,
            *old(taker_ata_b),
            *old(maker_ata_b),
            *old(taker_ata_a),
        ),
        r is Ok ==> ({
            let e = escrow_at(*old(ledger), maker@, nonce);
            &&& final(taker_ata_b).amount == old(taker_ata_b).amount - e.record.receive_amount
            &&& final(maker_ata_b).amount == old(maker_ata_b).amount + e.record.receive_amount
            &&& final(taker_ata_a).amount == old(taker_ata_a).amount + e.vault.amount
            &&& final(taker_ata_b).mint == old(taker_ata_b).mint
            &&& final(taker_ata_b).authority == old(taker_ata_b).authority
            &&& final(maker_ata_b).mint == old(maker_ata_b).mint
            &&& final(maker_ata_b).authority == old(maker_ata_b).authority
            &&& final(taker_ata_a).mint == old(taker_ata_a).mint
            &&& final(taker_ata_a).authority == old(taker_ata_a).authority
            &&& final(ledger).escrows@ == old(ledger).escrows@.remove(
                escrow_idx(*old(ledger), maker@, nonce),
            )
            &&& final(ledger).closed@ == old(ledger).closed@.push(
                (e.record.maker, e.record.nonce),
            )
            &&& !has_escrow(*final(ledger), maker@, nonce)
            &&& was_closed(*final(ledger), maker@, nonce)
        }),
        r is Err ==> *final(ledger) == *old(ledger) && *final(taker_ata_b) == *old(taker_ata_b)
            && *final(maker_ata_b) == *old(maker_ata_b) && *final(taker_ata_a) == *old(
            taker_ata_a,
        ),
{
    let i: usize = match find_escrow(ledger, maker, nonce) {
        Some(i) => i,
        None => {
            return Err(EscrowError::NotFound);
        },
    };
    let e: OpenEscrow = ledger.escrows[i];
    proof {
        assert(e == escrow_at(*old(ledger), maker@, nonce));
    }
    if !addr_eq(&e.record.asset_a, asset_a) || !addr_eq(&e.record.asset_b, asset_b) {
        return Err(EscrowError::ConstraintMismatch);
    }
    if !addr_eq(&taker_ata_b.mint, asset_b) {
        return Err(EscrowError::ConstraintMismatch);
    }
    if !addr_eq(&taker_ata_b.authority, taker) {
        return Err(EscrowError::AuthorizationError);
    }
    if !addr_eq(&maker_ata_b.mint, asset_b) || !addr_eq(&maker_ata_b.authority, maker) {
        return Err(EscrowError::ConstraintMismatch);
    }
    if !addr_eq(&taker_ata_a.mint, asset_a) || !addr_eq(&taker_ata_a.authority, taker) {
        return Err(EscrowError::ConstraintMismatch);
    }
    let replay_matches: bool = match derive_custody(&ledger.program_id, maker, nonce) {
        Some((address, bump)) => addr_eq(&address, &e.address) && bump == e.record.custody_proof,
        None => false,
    };
    if !replay_matches {
        return Err(EscrowError::ConstraintMismatch);
    }
    if taker_ata_b.amount < e.record.receive_amount {
        return Err(EscrowError::InsufficientFunds);
    }
    taker_ata_b.amount = taker_ata_b.amount - e.record.receive_amount;
    maker_ata_b.amount = maker_ata_b.amount + e.record.receive_amount;
    taker_ata_a.amount = taker_ata_a.amount + e.vault.amount;
    ledger.escrows.remove(i);
    ledger.closed.push((e.record.maker, e.record.nonce));
    proof {
        lemma_close_escrow(*old(ledger), *ledger, i as int);
    }
    Ok(())
}

/// Cancels an escrow: returns the vault's whole `asset_a` balance to the
/// maker and closes the record and the vault. Only the stored maker may
/// refund.
pub fn refund(
    ledger: &mut Ledger,
    signer: &Address,
    maker: &Address,
    nonce: u64,
    asset_a: &Address,
    asset_b: &Address,
    maker_ata_a: &mut TokenAccount,
) -> (r: Result<(), EscrowError>)
    requires
        old(ledger).wf(),
        has_escrow(*old(ledger), maker@, nonce) ==> old(maker_ata_a).amount + escrow_at(
            *old(ledger),
            maker@,
            nonce,
        ).vault.amount <= u64::MAX,
    ensures
        final(ledger).wf(),
        final(ledger).program_id == old(ledger).program_id,
        r == refund_result(
            *old(ledger),
            *signer,
            *maker,
            nonce,
            *asset_a,
            *asset_b,
            *old(maker_ata_a),
        ),
        r is Ok ==> ({
            let e = escrow_at(*old(ledger), maker@, nonce);
            &&& final(maker_ata_a).amount == old(maker_ata_a).amount + e.vault.amount
            &&& final(maker_ata_a).mint == old(maker_ata_a).mint
            &&& final(maker_ata_a).authority == old(maker_ata_a).authority
            &&& final(ledger).escrows@ == old(ledger).escrows@.remove(
                escrow_idx(*old(ledger), maker@, nonce),
            )
            &&& final(ledger).closed@ == old(ledger).closed@.push(
                (e.record.maker, e.record.nonce),
            )
            &&& !has_escrow(*final(ledger), maker@, nonce)
            &&& was_closed(*final(ledger), maker@, nonce)
        }),
        r is Err ==> *final(ledger) == *old(ledger) && *final(maker_ata_a) == *old(maker_ata_a),
{
    let accounts = Refund {
        signer: *signer,
        maker: *maker,
        asset_a: *asset_a,
        asset_b: *asset_b,
        nonce,
    };
    accounts.refund_and_close(ledger, maker_ata_a)
}

} // verus!
