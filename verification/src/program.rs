use vstd::prelude::*;

use crate::launch::{Launch, LaunchPlan};

verus! {

/// The launch instruction. It hands its arguments on to `Launch::process` with
/// the symbol and the uri in each other's place, so the metadata's symbol is
/// the given uri and its uri the given symbol.
pub fn launch(accounts: &mut Launch, name: String, symbol: String, uri: String, bump_config: u8) -> (r: LaunchPlan)
    ensures
        final(accounts).bonding_curve.token_total_supply == old(accounts).global_config.total_token_supply,
        final(accounts).bonding_curve.virtual_token_reserve == old(accounts).global_config.initial_virtual_token_reserve,
        final(accounts).bonding_curve.virtual_sol_reserve == old(accounts).global_config.initial_virtual_sol_reserve,
        final(accounts).bonding_curve.real_token_reserve == old(accounts).global_config.initial_real_token_reserve,
        final(accounts).bonding_curve.real_sol_reserve == 0,
        !final(accounts).bonding_curve.is_completed,
        final(accounts).bonding_curve.is_migrated == old(accounts).bonding_curve.is_migrated,
        final(accounts).bonding_curve.reserved == old(accounts).bonding_curve.reserved,
        final(accounts).global_config == old(accounts).global_config,
        r.signer_bump == bump_config,
        r.mint_amount == old(accounts).global_config.total_token_supply,
        r.metadata.name@ == name@,
        r.metadata.symbol@ == uri@,
        r.metadata.uri@ == symbol@,
        r.metadata.seller_fee_basis_points == 0,
        !r.metadata.is_mutable,
        r.metadata.update_authority_is_signer,
{
    accounts.process(name, uri, symbol, bump_config)
}

} // verus!
