//! Deterministic derivation of program-owned addresses from seed tuples:
//! the pool address, a user's record address, and the two vault addresses
//! of a pool. The derivation itself is the hashing scheme of the
//! `solana-program` crate; everything around it — seed construction and the
//! byte form of each input — is verified against the name given to that
//! scheme's result.

use crate::encoding::addr_from_bytes;
use crate::encoding::addr_to_bytes;
use crate::encoding::spec_u64_to_be_bytes;
use crate::encoding::u64_to_be_bytes_vec;
use crate::state::Address;
use vstd::prelude::*;

verus! {

/// What the derivation scheme returns for a seed tuple under a program
/// identity: a 32-byte derived address and its bump seed, or nothing in the
/// statistically improbable event that no bump works. A pure function of
/// its arguments alone.
pub uninterp spec fn pda_of(seeds: Seq<Seq<u8>>, program_id: Seq<u8>) -> Option<(Seq<u8>, u8)>;

/// Relies on `solana_program::pubkey::Pubkey::try_find_program_address`: a
/// deterministic, pure derivation of an address from the seed byte slices
/// and the program identity, returning `None` only when no bump seed
/// yields a valid address. Addresses are exactly 32 bytes.
#[verifier::external_body]
fn try_find_pda(seeds: &Vec<Vec<u8>>, program_id: &Vec<u8>) -> (r: Option<(Vec<u8>, u8)>)
    requires
        program_id@.len() == 32,
    ensures
        match r {
            Some(p) => pda_of(seeds@.map_values(|s: Vec<u8>| s@), program_id@) == Some((p.0@, p.1))
                && p.0@.len() == 32,
            None => pda_of(seeds@.map_values(|s: Vec<u8>| s@), program_id@) is None,
        },
{
    let seed_refs: Vec<&[u8]> = seeds.iter().map(|s| s.as_slice()).collect();
    let mut pid = [0u8; 32];
    pid.copy_from_slice(program_id.as_slice());
    let pk = solana_program::pubkey::Pubkey::new_from_array(pid);
    solana_program::pubkey::Pubkey::try_find_program_address(&seed_refs, &pk).map(
        |p: (solana_program::pubkey::Pubkey, u8)| (p.0.to_bytes().to_vec(), p.1),
    )
}

/// The identity this staking program deploys under
/// (base58 `kJsQ8P7cKZneV3tTQPGP8xKz5mpMxrgDatWNQRiYmvG`).
pub open spec fn spec_program_id() -> Address {
    Address {
        w0: 0xd81e289be42d180b,
        w1: 0x3ab2c4686080ac2d,
        w2: 0x8bccc57979eb8343,
        w3: 0xe922f11511f65ccf,
    }
}

/// The identity this staking program deploys under.
pub fn program_id() -> (r: Address)
    ensures
        r == spec_program_id(),
{
    Address {
        w0: 0xd81e289be42d180b,
        w1: 0x3ab2c4686080ac2d,
        w2: 0x8bccc57979eb8343,
        w3: 0xe922f11511f65ccf,
    }
}

/// The seed tag of a pool's staking vault: ASCII `staking`.
pub open spec fn spec_staking_seed() -> Seq<u8> {
    seq![115u8, 116u8, 97u8, 107u8, 105u8, 110u8, 103u8]
}

/// Builds the staking-vault seed tag.
fn staking_seed() -> (r: Vec<u8>)
    ensures
        r@ == spec_staking_seed(),
{
    let mut v: Vec<u8> = Vec::new();
    v.push(115u8);
    v.push(116u8);
    v.push(97u8);
    v.push(107u8);
    v.push(105u8);
    v.push(110u8);
    v.push(103u8);
    assert(v@ =~= spec_staking_seed());
    v
}

/// The seed tag of a pool's reward vault: ASCII `reward_a`.
pub open spec fn spec_reward_seed() -> Seq<u8> {
    seq![114u8, 101u8, 119u8, 97u8, 114u8, 100u8, 95u8, 97u8]
}

/// Builds the reward-vault seed tag.
fn reward_seed() -> (r: Vec<u8>)
    ensures
        r@ == spec_reward_seed(),
{
    let mut v: Vec<u8> = Vec::new();
    v.push(114u8);
    v.push(101u8);
    v.push(119u8);
    v.push(97u8);
    v.push(114u8);
    v.push(100u8);
    v.push(95u8);
    v.push(97u8);
    assert(v@ =~= spec_reward_seed());
    v
}

/// The seed tuple a pool address is derived from: the big-endian reward
/// duration, the staking mint, the reward mint and the base key.
pub open spec fn spec_pool_seeds(
    reward_duration: u64,
    staking_mint: Address,
    reward_a_mint: Address,
    base: Address,
) -> Seq<Seq<u8>> {
    seq![spec_u64_to_be_bytes(reward_duration), staking_mint@, reward_a_mint@, base@]
}

/// The seed tuple a user record address is derived from: the owner, then
/// the pool.
pub open spec fn spec_user_seeds(owner: Address, pool: Address) -> Seq<Seq<u8>> {
    seq![owner@, pool@]
}

/// The seed tuple of a pool's staking vault.
pub open spec fn spec_staking_vault_seeds(pool: Address) -> Seq<Seq<u8>> {
    seq![spec_staking_seed(), pool@]
}

/// The seed tuple of a pool's reward vault.
pub open spec fn spec_reward_vault_seeds(pool: Address) -> Seq<Seq<u8>> {
    seq![spec_reward_seed(), pool@]
}

/// A derived pool address with its bump seed.
#[derive(Clone, Copy, PartialEq, Eq, Structural, Debug)]
pub struct PoolPDA {
    pub pubkey: Address,
    pub bump: u8,
}

/// A derived user record address with its bump seed.
#[derive(Clone, Copy, Debug)]
pub struct UserPDA {
    pub user: (Address, u8),
}

/// The derived vault addresses of a pool, each with its bump seed.
#[derive(Clone, Copy, Debug)]
pub struct VaultPDAs {
    pub staking_vault: (Address, u8),
    pub reward_a_vault: (Address, u8),
}

/// Derives the address of the pool for this configuration of duration,
/// mints and base key under `program_id`.
pub fn get_pool_pda(
    program_id: &Address,
    reward_duration: u64,
    staking_mint: &Address,
    reward_a_mint: &Address,
    base: &Address,
) -> (r: Option<PoolPDA>)
    ensures
        match r {
            Some(p) => pda_of(
                spec_pool_seeds(reward_duration, *staking_mint, *reward_a_mint, *base),
                program_id@,
            ) == Some((p.pubkey@, p.bump)),
            None => pda_of(
                spec_pool_seeds(reward_duration, *staking_mint, *reward_a_mint, *base),
                program_id@,
            ) is None,
        },
{
    let mut seeds: Vec<Vec<u8>> = Vec::new();
    seeds.push(u64_to_be_bytes_vec(reward_duration));
    seeds.push(addr_to_bytes(staking_mint));
    seeds.push(addr_to_bytes(reward_a_mint));
    seeds.push(addr_to_bytes(base));
    let pid = addr_to_bytes(program_id);
    assert(seeds@.map_values(|s: Vec<u8>| s@) =~= spec_pool_seeds(
        reward_duration,
        *staking_mint,
        *reward_a_mint,
        *base,
    ));
    match try_find_pda(&seeds, &pid) {
        None => None,
        Some((bytes, bump)) => match addr_from_bytes(&bytes) {
            Some(a) => Some(PoolPDA { pubkey: a, bump }),
            None => {
                proof {
                    assert(false);
                }
                None
            },
        },
    }
}

/// Derives the address of `owner`'s user record within `pool` under
/// `program_id`.
pub fn get_user_pda(pool: &Address, owner: &Address, program_id: &Address) -> (r: Option<UserPDA>)
    ensures
        match r {
            Some(p) => pda_of(spec_user_seeds(*owner, *pool), program_id@) == Some(
                (p.user.0@, p.user.1),
            ),
            None => pda_of(spec_user_seeds(*owner, *pool), program_id@) is None,
        },
{
    let mut seeds: Vec<Vec<u8>> = Vec::new();
    seeds.push(addr_to_bytes(owner));
    seeds.push(addr_to_bytes(pool));
    let pid = addr_to_bytes(program_id);
    assert(seeds@.map_values(|s: Vec<u8>| s@) =~= spec_user_seeds(*owner, *pool));
    match try_find_pda(&seeds, &pid) {
        None => None,
        Some((bytes, bump)) => match addr_from_bytes(&bytes) {
            Some(a) => Some(UserPDA { user: (a, bump) }),
            None => {
                proof {
                    assert(false);
                }
                None
            },
        },
    }
}

/// Derives both vault addresses of `pool_pubkey` under `program_id`.
pub fn get_vault_pdas(program_id: &Address, pool_pubkey: &Address) -> (r: Option<VaultPDAs>)
    ensures
        match r {
            Some(v) => pda_of(spec_staking_vault_seeds(*pool_pubkey), program_id@) == Some(
                (v.staking_vault.0@, v.staking_vault.1),
            ) && pda_of(spec_reward_vault_seeds(*pool_pubkey), program_id@) == Some(
                (v.reward_a_vault.0@, v.reward_a_vault.1),
            ),
            None => pda_of(spec_staking_vault_seeds(*pool_pubkey), program_id@) is None || pda_of(
                spec_reward_vault_seeds(*pool_pubkey),
                program_id@,
            ) is None,
        },
{
    let pid = addr_to_bytes(program_id);
    let mut staking_seeds: Vec<Vec<u8>> = Vec::new();
    staking_seeds.push(staking_seed());
    staking_seeds.push(addr_to_bytes(pool_pubkey));
    assert(staking_seeds@.map_values(|s: Vec<u8>| s@) =~= spec_staking_vault_seeds(*pool_pubkey));
    let staking = match try_find_pda(&staking_seeds, &pid) {
        None => {
            return None;
        },
        Some((bytes, bump)) => match addr_from_bytes(&bytes) {
            Some(a) => (a, bump),
            None => {
                proof {
                    assert(false);
                }
                return None;
            },
        },
    };
    let mut reward_seeds: Vec<Vec<u8>> = Vec::new();
    reward_seeds.push(reward_seed());
    reward_seeds.push(addr_to_bytes(pool_pubkey));
    assert(reward_seeds@.map_values(|s: Vec<u8>| s@) =~= spec_reward_vault_seeds(*pool_pubkey));
    let reward = match try_find_pda(&reward_seeds, &pid) {
        None => {
            return None;
        },
        Some((bytes, bump)) => match addr_from_bytes(&bytes) {
            Some(a) => (a, bump),
            None => {
                proof {
                    assert(false);
                }
                return None;
            },
        },
    };
    Some(VaultPDAs { staking_vault: staking, reward_a_vault: reward })
}

} // verus!
