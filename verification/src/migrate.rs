use vstd::prelude::*;

use crate::error::Error;
use crate::state::{keys_equal, Config, Key};
use crate::tick::get_sqrt_price_at_tick;

verus! {

/// What a migration hands to the pool it creates.
#[derive(Debug, Clone, Copy, PartialEq, Eq, Structural)]
pub struct MigratePlan {
    /// The migration fee: the given percentage of the curve's lamports.
    pub migration_fee: u64,
    /// The curve's lamports less the migration fee.
    pub remaining_sol: u64,
    /// The pool's starting price, that of tick 0, as a Q64.64 square root.
    pub init_sqrt_price: u128,
}

/// The accounts a migration reads, as far as its logic reads them.
#[derive(Debug, Clone, Copy)]
pub struct Migrate {
    /// The signer that asks for the migration.
    pub authority: Key,
    pub config: Config,
    /// The lamports held by the curve's account.
    pub curve_sol_lamports: u64,
    /// The tokens held by the curve's token account.
    pub curve_token_amount: u64,
}

impl Migrate {
    /// The migration fee on `sol_balance` at `percentage` percent, when the
    /// product fits in `u64`.
    pub open spec fn spec_migration_fee(sol_balance: u64, percentage: u8) -> int {
        (sol_balance * percentage) / 100
    }

    /// Whether a migration asked for by these accounts goes through, and with
    /// which amounts.
    pub open spec fn spec_process(self) -> Result<MigratePlan, Error> {
        let balance = self.curve_sol_lamports;
        let pct = self.config.migration_fee_percentage;
        if self.config.authority@ != self.authority@ {
            Err(Error::UnauthorizedAddress)
        } else if balance * pct > u64::MAX {
            Err(Error::MathOverflow)
        } else if Self::spec_migration_fee(balance, pct) > balance {
            Err(Error::InSufficientSolBalance)
        } else {
            Ok(MigratePlan {
                migration_fee: Self::spec_migration_fee(balance, pct) as u64,
                remaining_sol: (balance - Self::spec_migration_fee(balance, pct)) as u64,
                init_sqrt_price: 0x1_0000_0000_0000_0000u128,
            })
        }
    }

    /// Checks that the global authority asks for the migration, then takes the
    /// migration fee from the curve's lamports and prices the pool at tick 0.
    pub fn process(&self) -> (r: Result<MigratePlan, Error>)
        ensures
            r == self.spec_process(),
    {
        if !keys_equal(&self.config.authority, &self.authority) {
            return Err(Error::UnauthorizedAddress);
        }
        let sol_balance = self.curve_sol_lamports;
        let product = match sol_balance.checked_mul(self.config.migration_fee_percentage as u64) {
            Some(p) => p,
            None => return Err(Error::MathOverflow),
        };
        let migration_fee = product / 100;
        let remaining_sol = match sol_balance.checked_sub(migration_fee) {
            Some(v) => v,
            None => return Err(Error::InSufficientSolBalance),
        };
        let init_sqrt_price = match get_sqrt_price_at_tick(0) {
            Ok(p) => p,
            Err(_) => {
                proof {
                    assert(false);
                }
                return Err(Error::MathOverflow);
            },
        };
        Ok(MigratePlan { migration_fee, remaining_sol, init_sqrt_price })
    }
}

/// A migration that goes through splits the curve's lamports between the fee
/// and what is left, and the fee is the percentage of the lamports rounded
/// down.
pub proof fn lemma_migration_splits_the_balance(m: Migrate)
    requires
        m.spec_process() is Ok,
    ensures
        m.spec_process()->Ok_0.migration_fee + m.spec_process()->Ok_0.remaining_sol == m.curve_sol_lamports,
        m.spec_process()->Ok_0.migration_fee * 100 <= m.curve_sol_lamports * m.config.migration_fee_percentage,
        m.curve_sol_lamports * m.config.migration_fee_percentage < (m.spec_process()->Ok_0.migration_fee + 1) * 100,
{
    let p = m.curve_sol_lamports * m.config.migration_fee_percentage;
    vstd::arithmetic::div_mod::lemma_fundamental_div_mod(p, 100);
}

/// With a fee of at most one hundred percent, a migration asked for by the
/// global authority fails only when the fee computation overflows; the fee
/// never exceeds the balance.
pub proof fn lemma_fee_within_balance(m: Migrate)
    requires
        m.config.migration_fee_percentage <= 100,
        m.config.authority@ == m.authority@,
        m.curve_sol_lamports * m.config.migration_fee_percentage <= u64::MAX,
    ensures
        Migrate::spec_migration_fee(m.curve_sol_lamports, m.config.migration_fee_percentage) <= m.curve_sol_lamports,
        m.spec_process() is Ok,
{
    let b = m.curve_sol_lamports as int;
    let q = m.config.migration_fee_percentage as int;
    assert((b * q) / 100 <= b) by (nonlinear_arith)
        requires
            0 <= b,
            0 <= q <= 100,
    {
        assert(b * q <= b * 100);
        vstd::arithmetic::div_mod::lemma_div_is_ordered(b * q, b * 100, 100);
        vstd::arithmetic::div_mod::lemma_div_multiples_vanish(b, 100);
    }
}

/// Only the global authority may migrate: any other signer is refused with
/// `UnauthorizedAddress`, whatever the curve holds and whatever the fee. When
/// the authority asks, the migration is refused with `MathOverflow` when the
/// lamports times the percentage overflow `u64`, with `InSufficientSolBalance`
/// when the fee (that product divided by 100, rounded down) exceeds the
/// lamports, and otherwise goes through: it takes that fee, leaves the rest,
/// and prices the pool at tick 0.
pub proof fn law_only_the_authority_migrates(m: Migrate)
    ensures
        m.config.authority@ != m.authority@ ==> m.spec_process() == Err::<MigratePlan, Error>(Error::UnauthorizedAddress),
        m.spec_process() is Ok ==> m.config.authority@ == m.authority@,
        m.config.authority@ == m.authority@ && m.curve_sol_lamports * m.config.migration_fee_percentage > u64::MAX
            ==> m.spec_process() == Err::<MigratePlan, Error>(Error::MathOverflow),
        m.config.authority@ == m.authority@
            && m.curve_sol_lamports * m.config.migration_fee_percentage <= u64::MAX
            && (m.curve_sol_lamports * m.config.migration_fee_percentage) / 100 > m.curve_sol_lamports
            ==> m.spec_process() == Err::<MigratePlan, Error>(Error::InSufficientSolBalance),
        m.config.authority@ == m.authority@
            && m.curve_sol_lamports * m.config.migration_fee_percentage <= u64::MAX
            && (m.curve_sol_lamports * m.config.migration_fee_percentage) / 100 <= m.curve_sol_lamports
            ==> m.spec_process() == Ok::<MigratePlan, Error>(MigratePlan {
                migration_fee: ((m.curve_sol_lamports * m.config.migration_fee_percentage) / 100) as u64,
                remaining_sol: (m.curve_sol_lamports - (m.curve_sol_lamports * m.config.migration_fee_percentage) / 100) as u64,
                init_sqrt_price: 0x1_0000_0000_0000_0000u128,
            }),
        m.config.authority@ == m.authority@
            && m.curve_sol_lamports * m.config.migration_fee_percentage <= u64::MAX
            && m.config.migration_fee_percentage <= 100
            ==> m.spec_process() is Ok,
{
    if m.config.authority@ == m.authority@
        && m.curve_sol_lamports * m.config.migration_fee_percentage <= u64::MAX
        && m.config.migration_fee_percentage <= 100 {
        lemma_fee_within_balance(m);
    }
}

} // verus!
