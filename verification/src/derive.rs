use vstd::prelude::*;

use crate::addr::Address;

verus! {

/// The result of program-address derivation for a program identity, a domain
/// tag, an owner key and a nonce: the derived 32-byte address together with
/// its bump proof, or nothing in the statistically improbable event that no
/// bump value pushes the address outside the valid-keypair space. The
/// derivation is a digest of its inputs alone, so it is named here rather
/// than written out.
pub uninterp spec fn derived_address_of(
    program: Seq<u8>,
    tag: Seq<u8>,
    owner: Seq<u8>,
    nonce: u64,
) -> Option<(Seq<u8>, u8)>;

/// The domain tag under which every escrow address is derived: the ASCII
/// bytes of the word "escrow".
pub open spec fn domain_tag() -> Seq<u8> {
    seq![101u8, 115u8, 99u8, 114u8, 111u8, 119u8]
}

/// The domain tag as a byte vector.
pub fn escrow_tag() -> (v: Vec<u8>)
    ensures
        v@ == domain_tag(),
{
    let v: Vec<u8> = vec![101u8, 115u8, 99u8, 114u8, 111u8, 119u8];
    proof {
        assert(v@ =~= domain_tag());
    }
    v
}

/// Relies on `Pubkey::try_find_program_address` (from `solana_pubkey`, which
/// `anchor_lang::solana_program::pubkey` re-exports): off-chain it hashes the
/// seed bytes, the bump and the program identity with SHA-256, searching bump
/// values downward from 255, and returns the first derived address that does
/// not lie on the ed25519 curve, together with that bump. The result depends
/// on the seed bytes and the program identity alone; `None` comes only when
/// every bump yields an address inside the valid-keypair space (or a seed is
/// over the length bound), and the call never panics.
#[verifier::external_body]
fn find_derived_address(program_id: &Address, tag: &Vec<u8>, owner: &Address, nonce: u64) -> (r:
    Option<(Address, u8)>)
    ensures
        r is Some <==> derived_address_of(program_id@, tag@, owner@, nonce) is Some,
        (r matches Some(p) ==> Some((p.0@, p.1)) == derived_address_of(
            program_id@,
            tag@,
            owner@,
            nonce,
        )),
{
    let pid = anchor_lang::solana_program::pubkey::Pubkey::new_from_array(program_id.bytes);
    let nonce_bytes = nonce.to_le_bytes();
    let seeds: [&[u8]; 3] = [tag.as_slice(), &owner.bytes, &nonce_bytes];
    let found = anchor_lang::solana_program::pubkey::Pubkey::try_find_program_address(&seeds, &pid);
    match found {
        Some((address, bump)) => Some((Address { bytes: address.to_bytes() }, bump)),
        None => None,
    }
}

/// Replays the custody derivation for `(program, maker, nonce)` under the
/// escrow domain tag. Every handler that must authorize a transfer out of a
/// vault performs exactly this derivation; a mismatch with the stored record
/// fails closed.
pub fn derive_custody(program_id: &Address, maker: &Address, nonce: u64) -> (r: Option<
    (Address, u8),
>)
    ensures
        r is Some <==> derived_address_of(program_id@, domain_tag(), maker@, nonce) is Some,
        (r matches Some(p) ==> Some((p.0@, p.1)) == derived_address_of(
            program_id@,
            domain_tag(),
            maker@,
            nonce,
        )),
{
    let tag = escrow_tag();
    find_derived_address(program_id, &tag, maker, nonce)
}

} // verus!
