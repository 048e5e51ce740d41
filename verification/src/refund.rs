use vstd::prelude::*;

use crate::addr::addr_eq;
use crate::addr::Address;
use crate::derive::derive_custody;
use crate::derive::derived_address_of;
use crate::derive::domain_tag;
use crate::state::escrow_at;
use crate::state::escrow_idx;
use crate::state::find_escrow;
use crate::state::has_escrow;
use crate::state::lemma_close_escrow;
use crate::state::was_closed;
use crate::state::Ledger;
use crate::state::OpenEscrow;
use crate::state::TokenAccount;
use crate::EscrowError;

verus! {

/// The account references a refund is invoked with: who signed, whose escrow
/// is addressed, the two asset identities and the maker-chosen nonce.
pub struct Refund {
    /// The identity that signed the refund request.
    pub signer: Address,
    /// The stored maker the escrow belongs to, and the owner of the
    /// receiving account.
    pub maker: Address,
    /// The deposited asset.
    pub asset_a: Address,
    /// The requested asset.
    pub asset_b: Address,
    /// The nonce the escrow was opened under.
    pub nonce: u64,
}

/// What a refund returns, decided by its checks in order: only the stored
/// maker may refund; the escrow must exist; the stored asset identities must
/// match the supplied ones; the maker's receiving account must match asset
/// and owner; and the replayed custody derivation must match the stored
/// record.
pub open spec fn refund_result(
    l: Ledger,
    signer: Address,
    maker: Address,
    nonce: u64,
    asset_a: Address,
    asset_b: Address,
    maker_ata_a: TokenAccount,
) -> Result<(), EscrowError> {
    if signer@ != maker@ {
        Err(EscrowError::AuthorizationError)
    } else if !has_escrow(l, maker@, nonce) {
        Err(EscrowError::NotFound)
    } else {
        let e = escrow_at(l, maker@, nonce);
        if e.record.asset_a@ != asset_a@ || e.record.asset_b@ != asset_b@ {
            Err(EscrowError::ConstraintMismatch)
        } else if maker_ata_a.mint@ != asset_a@ || maker_ata_a.authority@ != maker@ {
            Err(EscrowError::ConstraintMismatch)
        } else if derived_address_of(l.program_id@, domain_tag(), maker@, nonce) != Some(
            (e.address@, e.record.custody_proof),
        ) {
            Err(EscrowError::ConstraintMismatch)
        } else {
            Ok(())
        }
    }
}

impl Refund {
    /// Cancels an open escrow: moves the vault's whole `asset_a` balance
    /// back to the maker under the custody authority, then closes the vault
    /// and the record, all or nothing.
    pub fn refund_and_close(&self, ledger: &mut Ledger, maker_ata_a: &mut TokenAccount) -> (r:
        Result<(), EscrowError>)
        requires
            old(ledger).wf(),
            has_escrow(*old(ledger), self.maker@, self.nonce) ==> old(maker_ata_a).amount
                + escrow_at(*old(ledger), self.maker@, self.nonce).vault.amount <= u64::MAX,
        ensures
            final(ledger).wf(),
            final(ledger).program_id == old(ledger).program_id,
            r == refund_result(
                *old(ledger),
                self.signer,
                self.maker,
                self.nonce,
                self.asset_a,
                self.asset_b,
                *old(maker_ata_a),
            ),
            r is Ok ==> ({
                let e = escrow_at(*old(ledger), self.maker@, self.nonce);
                &&& final(maker_ata_a).amount == old(maker_ata_a).amount + e.vault.amount
                &&& final(maker_ata_a).mint == old(maker_ata_a).mint
                &&& final(maker_ata_a).authority == old(maker_ata_a).authority
                &&& final(ledger).escrows@ == old(ledger).escrows@.remove(
                    escrow_idx(*old(ledger), self.maker@, self.nonce),
                )
                &&& final(ledger).closed@ == old(ledger).closed@.push(
                    (e.record.maker, e.record.nonce),
                )
                &&& !has_escrow(*final(ledger), self.maker@, self.nonce)
                &&& was_closed(*final(ledger), self.maker@, self.nonce)
            }),
            r is Err ==> *final(ledger) == *old(ledger) && *final(maker_ata_a) == *old(
                maker_ata_a,
            ),
    {
        if !addr_eq(&self.signer, &self.maker) {
            return Err(EscrowError::AuthorizationError);
        }
        let i: usize = match find_escrow(ledger, &self.maker, self.nonce) {
            Some(i) => i,
            None => {
                return Err(EscrowError::NotFound);
            },
        };
        let e: OpenEscrow = ledger.escrows[i];
        proof {
            assert(e == escrow_at(*old(ledger), self.maker@, self.nonce));
        }
        if !addr_eq(&e.record.asset_a, &self.asset_a) || !addr_eq(&e.record.asset_b, &self.asset_b)
        {
            return Err(EscrowError::ConstraintMismatch);
        }
        if !addr_eq(&maker_ata_a.mint, &self.asset_a) || !addr_eq(
            &maker_ata_a.authority,
            &self.maker,
        ) {
            return Err(EscrowError::ConstraintMismatch);
        }
        let replay_matches: bool = match derive_custody(&ledger.program_id, &self.maker, self.nonce) {
            Some((address, bump)) => addr_eq(&address, &e.address) && bump
                == e.record.custody_proof,
            None => false,
        };
        if !replay_matches {
            return Err(EscrowError::ConstraintMismatch);
        }
        maker_ata_a.amount = maker_ata_a.amount + e.vault.amount;
        ledger.escrows.remove(i);
        ledger.closed.push((e.record.maker, e.record.nonce));
        proof {
            lemma_close_escrow(*old(ledger), *ledger, i as int);
        }
        Ok(())
    }
}

} // verus!
