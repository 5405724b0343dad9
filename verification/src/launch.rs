use vstd::prelude::*;

use crate::state::{BondingCurve, Config};

verus! {

/// The token metadata that a launch creates.
#[derive(Debug, Clone)]
pub struct TokenMetadata {
    pub name: String,
    pub symbol: String,
    pub uri: String,
    pub seller_fee_basis_points: u16,
    pub is_mutable: bool,
    pub update_authority_is_signer: bool,
}

/// What a launch does after it has set up the curve, in this order: mint the
/// whole supply to the curve's token account, create the token's metadata,
/// then give up the mint authority for good.
#[derive(Debug, Clone)]
pub struct LaunchPlan {
    /// The bump of the global settings account, which signs all three steps.
    pub signer_bump: u8,
    pub mint_amount: u64,
    pub metadata: TokenMetadata,
}

/// The accounts a launch reads and writes, as far as its logic reads them.
#[derive(Debug, Clone)]
pub struct Launch {
    pub global_config: Config,
    pub bonding_curve: BondingCurve,
}

impl Launch {
    /// Sets the new curve up from the global settings and returns what is left
    /// to do: the whole token supply is minted to the curve, and the metadata
    /// carries the given name, symbol and uri, no seller fee, and cannot be changed.
    pub fn process(&mut self, name: String, symbol: String, uri: String, bump_config: u8) -> (r: LaunchPlan)
        ensures
            final(self).global_config == old(self).global_config,
            final(self).bonding_curve.virtual_token_reserve == old(self).global_config.initial_virtual_token_reserve,
            final(self).bonding_curve.virtual_sol_reserve == old(self).global_config.initial_virtual_sol_reserve,
            final(self).bonding_curve.real_token_reserve == old(self).global_config.initial_real_token_reserve,
            final(self).bonding_curve.real_sol_reserve == 0,
            final(self).bonding_curve.token_total_supply == old(self).global_config.total_token_supply,
            !final(self).bonding_curve.is_completed,
            final(self).bonding_curve.is_migrated == old(self).bonding_curve.is_migrated,
            final(self).bonding_curve.reserved == old(self).bonding_curve.reserved,
            r.signer_bump == bump_config,
            r.mint_amount == old(self).global_config.total_token_supply,
            r.metadata.name@ == name@,
            r.metadata.symbol@ == symbol@,
            r.metadata.uri@ == uri@,
            r.metadata.seller_fee_basis_points == 0,
            !r.metadata.is_mutable,
            r.metadata.update_authority_is_signer,
    {
        let global_config = self.global_config;
        self.bonding_curve.virtual_token_reserve = global_config.initial_virtual_token_reserve;
        self.bonding_curve.virtual_sol_reserve = global_config.initial_virtual_sol_reserve;
        self.bonding_curve.real_token_reserve = global_config.initial_real_token_reserve;
        self.bonding_curve.real_sol_reserve = 0;
        self.bonding_curve.token_total_supply = global_config.total_token_supply;
        self.bonding_curve.is_completed = false;

        LaunchPlan {
            signer_bump: bump_config,
            mint_amount: global_config.total_token_supply,
            metadata: TokenMetadata {
                name,
                symbol,
                uri,
                seller_fee_basis_points: 0,
                is_mutable: false,
                update_authority_is_signer: true,
            },
        }
    }
}

} // verus!
