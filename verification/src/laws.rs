use vstd::prelude::*;

use crate::addr::Address;
use crate::derive::derived_address_of;
use crate::derive::domain_tag;
use crate::make_result;
use crate::refund::refund_result;
use crate::state::escrow_at;
use crate::state::has_escrow;
use crate::state::closed_matches;
use crate::state::was_closed;
use crate::state::Ledger;
use crate::state::TokenAccount;
use crate::take_result;
use crate::EscrowError;

verus! {

/// A creation request that is valid in every other respect — positive
/// amounts, distinct assets, a holding account of the right asset owned by
/// the maker, a `(maker, nonce)` pair that is neither open nor closed, and a
/// derivable custody address — is accepted exactly when the maker's balance
/// covers the deposit.
pub proof fn lemma_make_accepted_iff_funded(
    l: Ledger,
    maker: Address,
    nonce: u64,
    asset_a: Address,
    asset_b: Address,
    receive_amount: u64,
    deposit_amount: u64,
    maker_ata_a: TokenAccount,
)
    requires
        receive_amount > 0,
        deposit_amount > 0,
        asset_a@ != asset_b@,
        maker_ata_a.mint@ == asset_a@,
        maker_ata_a.authority@ == maker@,
        !has_escrow(l, maker@, nonce),
        !was_closed(l, maker@, nonce),
        derived_address_of(l.program_id@, domain_tag(), maker@, nonce) is Some,
    ensures
        make_result(l, maker, nonce, asset_a, asset_b, receive_amount, deposit_amount, maker_ata_a)
            is Ok <==> maker_ata_a.amount >= deposit_amount,
{
}

/// Mutual exclusion: in any ledger without an open escrow for
/// `(maker, nonce)` — in particular any ledger after a take or a refund for
/// that pair has committed, since either removes it — every later take for
/// the pair is rejected with `NotFound`, whoever the taker is and whatever
/// accounts are supplied, and so is every later refund by the stored maker.
pub proof fn lemma_mutual_exclusion(
    l: Ledger,
    taker: Address,
    maker: Address,
    nonce: u64,
    asset_a: Address,
    asset_b: Address,
    taker_ata_b: TokenAccount,
    maker_ata_b: TokenAccount,
    taker_ata_a: TokenAccount,
    maker_ata_a: TokenAccount,
)
    requires
        !has_escrow(l, maker@, nonce),
    ensures
        take_result(
            l,
            taker,
            maker,
            nonce,
            asset_a,
            asset_b,
            taker_ata_b,
            maker_ata_b,
            taker_ata_a,
        ) == Err::<(), EscrowError>(EscrowError::NotFound),
        refund_result(l, maker, maker, nonce, asset_a, asset_b, maker_ata_a) == Err::<
            (),
            EscrowError,
        >(EscrowError::NotFound),
{
}

/// Closed is terminal: once a `(maker, nonce)` pair has been closed by a
/// settlement or a refund, no creation request can reopen it — whatever the
/// arguments and accounts, the request is rejected, and one that is valid in
/// every other respect is rejected with `ConstraintMismatch`. Reopening
/// requires the maker to choose a fresh nonce.
pub proof fn lemma_closed_pair_cannot_reopen(
    l: Ledger,
    maker: Address,
    nonce: u64,
    asset_a: Address,
    asset_b: Address,
    receive_amount: u64,
    deposit_amount: u64,
    maker_ata_a: TokenAccount,
)
    requires
        was_closed(l, maker@, nonce),
    ensures
        make_result(l, maker, nonce, asset_a, asset_b, receive_amount, deposit_amount, maker_ata_a)
            is Err,
{
}

/// A pair once closed stays closed for good: a creation leaves the closed
/// set unchanged and a settlement or refund only appends to it, so under
/// either kind of step every previously closed pair is still closed.
pub proof fn lemma_closed_stays_closed(
    l: Ledger,
    l2: Ledger,
    appended: (Address, u64),
    maker: Seq<u8>,
    nonce: u64,
)
    requires
        was_closed(l, maker, nonce),
        l2.closed@ == l.closed@ || l2.closed@ == l.closed@.push(appended),
    ensures
        was_closed(l2, maker, nonce),
{
    let i = choose|i: int|
        0 <= i < l.closed@.len() && closed_matches(#[trigger] l.closed@[i], maker, nonce);
    assert(l2.closed@[i] == l.closed@[i]);
    assert(closed_matches(l2.closed@[i], maker, nonce));
}

/// A take is accepted only when the escrow exists, the supplied asset
/// identities match the stored record, the three accounts match asset and
/// owner, and the taker's paying balance covers the requested amount.
pub proof fn lemma_take_accepted_only_if(
    l: Ledger,
    taker: Address,
    maker: Address,
    nonce: u64,
    asset_a: Address,
    asset_b: Address,
    taker_ata_b: TokenAccount,
    maker_ata_b: TokenAccount,
    taker_ata_a: TokenAccount,
)
    requires
        take_result(
            l,
            taker,
            maker,
            nonce,
            asset_a,
            asset_b,
            taker_ata_b,
            maker_ata_b,
            taker_ata_a,
        ) is Ok,
    ensures
        has_escrow(l, maker@, nonce),
        escrow_at(l, maker@, nonce).record.asset_a@ == asset_a@,
        escrow_at(l, maker@, nonce).record.asset_b@ == asset_b@,
        taker_ata_b.amount >= escrow_at(l, maker@, nonce).record.receive_amount,
        taker_ata_b.mint@ == asset_b@ && taker_ata_b.authority@ == taker@,
        maker_ata_b.mint@ == asset_b@ && maker_ata_b.authority@ == maker@,
        taker_ata_a.mint@ == asset_a@ && taker_ata_a.authority@ == taker@,
{
}

/// A refund signed by anyone other than the stored maker is rejected as
/// unauthorized, whatever ledger state and accounts it is aimed at.
pub proof fn lemma_refund_only_by_maker(
    l: Ledger,
    signer: Address,
    maker: Address,
    nonce: u64,
    asset_a: Address,
    asset_b: Address,
    maker_ata_a: TokenAccount,
)
    requires
        signer@ != maker@,
    ensures
        refund_result(l, signer, maker, nonce, asset_a, asset_b, maker_ata_a) == Err::<
            (),
            EscrowError,
        >(EscrowError::AuthorizationError),
{
}

} // verus!
