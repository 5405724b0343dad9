use vstd::prelude::*;

use vstd::string::StringSliceAdditionalSpecFns;

use crate::error::Error;

verus! {

/// The 32 bytes of an account address.
pub type Key = [u8; 32];

/// Byte-wise equality of two addresses.
pub fn keys_equal(a: &Key, b: &Key) -> (r: bool)
    ensures
        r == (a@ == b@),
{
    let mut i: usize = 0;
    while i < 32
        invariant
            0 <= i <= 32,
            forall|j: int| 0 <= j < i ==> a@[j] == b@[j],
        decreases 32 - i,
    {
        if a[i] != b[i] {
            return false;
        }
        i = i + 1;
    }
    assert(a@ =~= b@);
    true
}

/// The state of one token's bonding curve.
#[allow(non_camel_case_types)]
#[derive(Debug, Clone, Copy)]
pub struct bonding_curve {
    pub virtual_token_reserve: u64,
    pub virtual_sol_reserve: u64,
    pub real_token_reserve: u64,
    pub real_sol_reserve: u64,
    pub token_total_supply: u64,
    pub is_completed: bool,
    pub is_migrated: bool,
    pub reserved: [u8; 8],
}

pub type BondingCurve = bonding_curve;

impl BondingCurve {
    pub const SEED_PREFIX: &'static str = "bonding_curve";

    pub const LEN: usize = 8 * 5 + 1 + 1 + 8;

    /// The seeds that sign for the curve account of `mint`: the curve prefix,
    /// the mint's address and the bump.
    pub fn get_signer<'a>(mint: &'a Key, bump: &'a u8) -> (r: [&'a [u8]; 3])
        ensures
            r[0]@ == Self::SEED_PREFIX.spec_bytes(),
            r[1]@ == mint@,
            r[2]@ == seq![*bump],
    {
        [Self::SEED_PREFIX.as_bytes(), mint.as_slice(), slice_of_one(bump)]
    }

    /// Replaces the virtual reserves; nothing else changes.
    pub fn update_reserves(&mut self, reserve_lamport: u64, reserve_token: u64) -> (r: Result<bool, Error>)
        ensures
            r == Ok::<bool, Error>(true),
            *final(self) == (bonding_curve {
                virtual_sol_reserve: reserve_lamport,
                virtual_token_reserve: reserve_token,
                ..*old(self)
            }),
    {
        self.virtual_sol_reserve = reserve_lamport;
        self.virtual_token_reserve = reserve_token;
        Ok(true)
    }
}

/// The program's global settings, as far as the curve logic reads them.
#[derive(Debug, Clone, Copy)]
pub struct Config {
    pub authority: Key,
    pub initial_virtual_token_reserve: u64,
    pub initial_virtual_sol_reserve: u64,
    pub initial_real_token_reserve: u64,
    pub total_token_supply: u64,
    pub migration_fee_percentage: u8,
}

impl Config {
    pub const SEED_PREFIX: &'static str = "global_config";
}

/// `std::slice::from_ref`: a slice of length one that holds the referenced value.
#[verifier::external_body]
fn slice_of_one(x: &u8) -> (r: &[u8])
    ensures
        r@ == seq![*x],
{
    std::slice::from_ref(x)
}

} // verus!
