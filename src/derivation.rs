//! Deterministic location of escrow accounts: an escrow address is the
//! program address derived from a fixed domain tag, the owner's identity and
//! a one-byte nonce (the bump).
use crate::key::Key;
use anchor_lang::solana_program::pubkey::Pubkey;
use vstd::prelude::*;

verus! {

/// The program address that the ledger derives from `seeds` under
/// `program_id`, or `None` where those seeds derive none.
pub uninterp spec fn program_address(seeds: Seq<Seq<u8>>, program_id: Seq<u8>) -> Option<Seq<u8>>;

/// The domain tag that every escrow address is derived under: the ASCII text
/// `user_account`.
pub open spec fn escrow_tag() -> Seq<u8> {
    seq![117u8, 115u8, 101u8, 114u8, 95u8, 97u8, 99u8, 99u8, 111u8, 117u8, 110u8, 116u8]
}

/// The seeds that locate the escrow of `identity`, before the bump.
pub open spec fn escrow_seeds(identity: Seq<u8>) -> Seq<Seq<u8>> {
    seq![escrow_tag(), identity]
}

/// The seeds that re-derive the escrow of `identity` with bump `bump`; they
/// authorise transfers out of that escrow.
pub open spec fn signer_seeds(identity: Seq<u8>, bump: u8) -> Seq<Seq<u8>> {
    escrow_seeds(identity).push(seq![bump])
}

/// `address` is the canonical escrow of `identity` and `bump` its bump: the
/// highest nonce from 255 down for which the seeds derive an address, and that
/// address is `address`.
pub open spec fn canonical_escrow(program_id: Seq<u8>, identity: Seq<u8>, address: Seq<u8>, bump: u8) -> bool {
    &&& 1 <= bump
    &&& program_address(signer_seeds(identity, bump), program_id) == Some(address)
    &&& forall|b: u8| bump < b ==> (#[trigger] program_address(signer_seeds(identity, b), program_id)) is None
}

/// The plain byte vectors of a seed list.
pub open spec fn seeds_view(seeds: Seq<Vec<u8>>) -> Seq<Seq<u8>> {
    seeds.map_values(|s: Vec<u8>| s@)
}

/// Relies on `Pubkey::try_find_program_address`: it tries the bump seeds from
/// 255 down to 1, appending each as a one-byte seed, and returns the first
/// address that `Pubkey::create_program_address` derives together with its
/// bump; `None` when no bump derives one.
#[verifier::external_body]
fn find_program_address(seeds: &Vec<Vec<u8>>, program_id: &Key) -> (r: Option<(Key, u8)>)
    requires
        seeds@.len() < 16,
        forall|i: int| 0 <= i < seeds@.len() ==> (#[trigger] seeds@[i])@.len() <= 32,
    ensures
        match r {
            Some((k, b)) => {
                &&& 1 <= b
                &&& program_address(seeds_view(seeds@).push(seq![b]), program_id@) == Some(k@)
                &&& forall|c: u8| b < c ==> (#[trigger] program_address(seeds_view(seeds@).push(seq![c]), program_id@)) is None
            },
            None => forall|c: u8| 1 <= c ==> (#[trigger] program_address(seeds_view(seeds@).push(seq![c]), program_id@)) is None,
        },
{
    let slices: Vec<&[u8]> = seeds.iter().map(|s| s.as_slice()).collect();
    Pubkey::try_find_program_address(&slices, &Pubkey::new_from_array(program_id.bytes))
        .map(|(k, b)| (Key { bytes: k.to_bytes() }, b))
}

/// The domain tag as bytes.
pub fn escrow_tag_bytes() -> (r: Vec<u8>)
    ensures
        r@ == escrow_tag(),
{
    let r: Vec<u8> = vec![117u8, 115u8, 101u8, 114u8, 95u8, 97u8, 99u8, 99u8, 111u8, 117u8, 110u8, 116u8];
    assert(r@ =~= escrow_tag());
    r
}

/// The seeds that locate the escrow of `identity`, before the bump.
pub fn escrow_seed_list(identity: &Key) -> (r: Vec<Vec<u8>>)
    ensures
        seeds_view(r@) == escrow_seeds(identity@),
        r@.len() == 2,
        r@[0]@ == escrow_tag(),
        r@[1]@ == identity@,
{
    let mut r: Vec<Vec<u8>> = Vec::new();
    r.push(escrow_tag_bytes());
    r.push(identity.to_vec());
    assert(seeds_view(r@) =~= escrow_seeds(identity@));
    r
}

/// The seeds that authorise a transfer out of the escrow of `identity` with
/// bump `bump`.
pub fn signer_seed_list(identity: &Key, bump: u8) -> (r: Vec<Vec<u8>>)
    ensures
        seeds_view(r@) == signer_seeds(identity@, bump),
{
    let mut r = escrow_seed_list(identity);
    let mut b: Vec<u8> = Vec::new();
    b.push(bump);
    r.push(b);
    assert(b@ =~= seq![bump]);
    assert(seeds_view(r@) =~= signer_seeds(identity@, bump));
    r
}

/// Locates the canonical escrow of `identity`: its address and bump.
pub fn locate_escrow(program_id: &Key, identity: &Key) -> (r: Option<(Key, u8)>)
    ensures
        match r {
            Some((k, b)) => canonical_escrow(program_id@, identity@, k@, b),
            None => forall|a: Seq<u8>, b: u8| !canonical_escrow(program_id@, identity@, a, b),
        },
{
    let seeds = escrow_seed_list(identity);
    assert(identity@.len() == 32);
    let r = find_program_address(&seeds, program_id);
    match r {
        Some((k, b)) => {
            assert forall|c: u8| b < c implies (#[trigger] program_address(signer_seeds(identity@, c), program_id@)) is None by {
                assert(program_address(seeds_view(seeds@).push(seq![c]), program_id@) is None);
            }
        },
        None => {
            assert forall|a: Seq<u8>, b: u8| !canonical_escrow(program_id@, identity@, a, b) by {
                if 1 <= b {
                    assert(program_address(seeds_view(seeds@).push(seq![b]), program_id@) is None);
                }
            }
        },
    }
    r
}

/// The bump of `address` when it is the canonical escrow of `identity`;
/// `None` when it is not.
pub fn verify_escrow_address(program_id: &Key, identity: &Key, address: &Key) -> (r: Option<u8>)
    ensures
        match r {
            Some(b) => canonical_escrow(program_id@, identity@, address@, b),
            None => forall|b: u8| !canonical_escrow(program_id@, identity@, address@, b),
        },
{
    match locate_escrow(program_id, identity) {
        Some((k, b)) => {
            if k.same(address) {
                Some(b)
            } else {
                assert forall|c: u8| !canonical_escrow(program_id@, identity@, address@, c) by {
                    if canonical_escrow(program_id@, identity@, address@, c) {
                        if b < c {
                            assert(program_address(signer_seeds(identity@, c), program_id@) is None);
                        } else if c < b {
                            assert(program_address(signer_seeds(identity@, b), program_id@) is None);
                        }
                    }
                }
                None
            }
        },
        None => None,
    }
}

/// Whether `address` is the canonical escrow of `identity` with bump `bump`.
pub fn check_derivation(program_id: &Key, identity: &Key, address: &Key, bump: u8) -> (r: bool)
    ensures
        r == canonical_escrow(program_id@, identity@, address@, bump),
{
    match verify_escrow_address(program_id, identity, address) {
        Some(b) => {
            proof {
                if b != bump && canonical_escrow(program_id@, identity@, address@, bump) {
                    if b < bump {
                        assert(program_address(signer_seeds(identity@, bump), program_id@) is None);
                    } else {
                        assert(program_address(signer_seeds(identity@, b), program_id@) is None);
                    }
                }
            }
            b == bump
        },
        None => false,
    }
}

} // verus!
