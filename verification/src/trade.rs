use vstd::prelude::*;

use crate::error::Error;
use crate::state::{bonding_curve, BondingCurve};

verus! {

/// What a buy or a sell reports about the trade it made.
#[derive(Debug, Clone, Copy, PartialEq, Eq, Structural)]
pub struct TradeRecord {
    pub sol_amount: u64,
    pub token_amount: u64,
    pub fee_amount: u64,
    pub price: u64,
}

/// The reserves a curve ends with when a buy completes it.
#[derive(Debug, Clone, Copy, PartialEq, Eq, Structural)]
pub struct CompletionRecord {
    pub final_sol_reserves: u64,
    pub final_token_reserves: u64,
}

/// The outcome of a buy once its transfers are made.
#[derive(Debug, Clone, Copy, PartialEq, Eq, Structural)]
pub struct BuySettlement {
    pub purchase: TradeRecord,
    pub completion: Option<CompletionRecord>,
}

/// A buy that passed its slippage check: the transfers to make, in this order,
/// and how the buy settles after them.
#[derive(Debug, Clone, Copy)]
pub struct BuyPlan {
    /// Lamports from the buyer to the fee recipient.
    pub fee_lamports: u64,
    /// Lamports from the buyer to the curve account.
    pub curve_lamports: u64,
    /// Tokens from the curve's token account to the buyer's.
    pub tokens_to_user: u64,
    pub settlement: Result<BuySettlement, Error>,
}

/// A sell that passed its slippage check: the transfers to make, in this order,
/// and how the sell settles after them.
#[derive(Debug, Clone, Copy)]
pub struct SellPlan {
    /// Tokens from the seller's token account to the curve's.
    pub tokens_from_user: u64,
    /// Lamports from the curve account to the seller.
    pub lamports_to_user: u64,
    /// Lamports from the curve account to the fee recipient.
    pub fee_lamports: u64,
    pub settlement: Result<TradeRecord, Error>,
}

impl BondingCurve {
    /// The amount a swap trades against the curve, or why the swap is refused
    /// before its output is priced.
    pub open spec fn spec_amount_after_fee(self, amount_in: u64, direction: u8, fee_amount: u64) -> Result<u64, Error> {
        if fee_amount > amount_in {
            Err(Error::InsufficientFunds)
        } else if direction == 0 && self.virtual_sol_reserve == 0 {
            Err(Error::DivisionByZero)
        } else if direction != 0 && self.virtual_token_reserve == 0 {
            Err(Error::DivisionByZero)
        } else {
            Ok((amount_in - fee_amount) as u64)
        }
    }

    /// Whether the reserves of a buy stay within `u64`.
    pub open spec fn buy_fits(self, amount_in: u64, amount_out: u64, fee_amount: u64) -> bool {
        &&& amount_out <= self.virtual_token_reserve
        &&& self.virtual_sol_reserve + (amount_in - fee_amount) <= u64::MAX
    }

    /// The curve after a buy settles.
    pub open spec fn after_buy(self, curve_limit: u64, amount_in: u64, amount_out: u64, fee_amount: u64) -> bonding_curve {
        let new_sol = (self.virtual_sol_reserve + (amount_in - fee_amount)) as u64;
        let new_token = (self.virtual_token_reserve - amount_out) as u64;
        bonding_curve {
            virtual_sol_reserve: new_sol,
            virtual_token_reserve: new_token,
            is_completed: self.is_completed || new_sol >= curve_limit,
            ..self
        }
    }

    /// How a buy settles once its transfers are made.
    pub open spec fn buy_settlement(self, curve_limit: u64, amount_in: u64, amount_out: u64, fee_amount: u64) -> Result<BuySettlement, Error> {
        if !self.buy_fits(amount_in, amount_out, fee_amount) {
            Err(Error::InvalidReserves)
        } else {
            let next = self.after_buy(curve_limit, amount_in, amount_out, fee_amount);
            Ok(BuySettlement {
                purchase: TradeRecord {
                    sol_amount: amount_in,
                    token_amount: amount_out,
                    fee_amount,
                    price: (next.virtual_sol_reserve / next.virtual_token_reserve) as u64,
                },
                completion: if next.virtual_sol_reserve >= curve_limit {
                    Some(CompletionRecord {
                        final_sol_reserves: next.virtual_sol_reserve,
                        final_token_reserves: next.virtual_token_reserve,
                    })
                } else {
                    None
                },
            })
        }
    }

    /// A buy with these amounts neither underflows the buyer's payment nor
    /// divides by an empty token reserve when it prices the trade.
    pub open spec fn buy_is_total(self, amount_in: u64, min_amount_out: u64, amount_out: u64, fee_amount: u64) -> bool {
        amount_out >= min_amount_out ==> {
            &&& fee_amount <= amount_in
            &&& self.buy_fits(amount_in, amount_out, fee_amount) ==> amount_out != self.virtual_token_reserve
        }
    }

    /// Whether the reserves of a sell stay within `u64`.
    pub open spec fn sell_fits(self, amount_in: u64, amount_out: u64) -> bool {
        &&& self.virtual_token_reserve + amount_in <= u64::MAX
        &&& amount_out <= self.virtual_sol_reserve
    }

    /// How a sell settles once its transfers are made.
    pub open spec fn sell_settlement(self, amount_in: u64, amount_out: u64, fee_amount: u64) -> Result<TradeRecord, Error> {
        if !self.sell_fits(amount_in, amount_out) {
            Err(Error::InvalidReserves)
        } else {
            Ok(TradeRecord {
                sol_amount: amount_in,
                token_amount: amount_out,
                fee_amount,
                price: ((self.virtual_sol_reserve - amount_out) / (self.virtual_token_reserve + amount_in)) as u64,
            })
        }
    }

    /// A sell with these amounts neither underflows the seller's payout nor
    /// divides by an empty token reserve when it prices the trade.
    pub open spec fn sell_is_total(self, amount_in: u64, min_amount_out: u64, amount_out: u64, fee_amount: u64) -> bool {
        amount_out >= min_amount_out ==> {
            &&& fee_amount <= amount_out
            &&& self.sell_fits(amount_in, amount_out) ==> self.virtual_token_reserve + amount_in != 0
        }
    }

    /// The checks on a swap before its output is priced: the fee must not exceed
    /// what comes in, and the reserve that prices the swap (lamports to buy,
    /// tokens to sell) must not be empty. Returns what is left after the fee.
    pub fn amount_after_fee(&self, amount_in: u64, direction: u8, fee_amount: u64) -> (r: Result<u64, Error>)
        ensures
            r == self.spec_amount_after_fee(amount_in, direction, fee_amount),
    {
        let amount_after_fee = match amount_in.checked_sub(fee_amount) {
            Some(a) => a,
            None => return Err(Error::InsufficientFunds),
        };
        if direction == 0 {
            if self.virtual_sol_reserve == 0 {
                return Err(Error::DivisionByZero);
            }
        } else {
            if self.virtual_token_reserve == 0 {
                return Err(Error::DivisionByZero);
            }
        }
        Ok(amount_after_fee)
    }

    /// A buy of `amount_out` tokens for `amount_in` lamports, of which
    /// `fee_amount` is the fee. Refused when fewer than `min_amount_out` tokens
    /// come out. Otherwise the buyer pays the fee to the fee recipient and the
    /// rest to the curve, receives the tokens, and then the virtual reserves
    /// move by those amounts; the curve completes when its lamport reserve
    /// reaches `curve_limit`.
    pub fn buy(
        &mut self,
        curve_limit: u64,
        amount_in: u64,
        min_amount_out: u64,
        amount_out: u64,
        fee_amount: u64,
    ) -> (r: Result<BuyPlan, Error>)
        requires
            old(self).buy_is_total(amount_in, min_amount_out, amount_out, fee_amount),
        ensures
            amount_out < min_amount_out ==> r == Err::<BuyPlan, Error>(Error::InsufficientAmountOut),
            amount_out >= min_amount_out ==> r is Ok,
            r matches Ok(plan) ==> {
                &&& plan.fee_lamports == fee_amount
                &&& plan.curve_lamports == amount_in - fee_amount
                &&& plan.fee_lamports + plan.curve_lamports == amount_in
                &&& plan.tokens_to_user == amount_out
                &&& plan.settlement == old(self).buy_settlement(curve_limit, amount_in, amount_out, fee_amount)
            },
            r matches Ok(plan) && plan.settlement is Ok
                ==> *final(self) == old(self).after_buy(curve_limit, amount_in, amount_out, fee_amount),
            !(r matches Ok(plan) && plan.settlement is Ok) ==> *final(self) == *old(self),
    {
        if amount_out < min_amount_out {
            return Err(Error::InsufficientAmountOut);
        }
        let fee_lamports = fee_amount;
        let curve_lamports = amount_in - fee_amount;
        let tokens_to_user = amount_out;

        let new_token_reserves = match self.virtual_token_reserve.checked_sub(amount_out) {
            Some(v) => v,
            None => {
                return Ok(BuyPlan { fee_lamports, curve_lamports, tokens_to_user, settlement: Err(Error::InvalidReserves) });
            },
        };
        let new_sol_reserves = match self.virtual_sol_reserve.checked_add(curve_lamports) {
            Some(v) => v,
            None => {
                return Ok(BuyPlan { fee_lamports, curve_lamports, tokens_to_user, settlement: Err(Error::InvalidReserves) });
            },
        };
        let _ = self.update_reserves(new_sol_reserves, new_token_reserves);

        let purchase = TradeRecord {
            sol_amount: amount_in,
            token_amount: amount_out,
            fee_amount,
            price: new_sol_reserves / new_token_reserves,
        };

        let completion = if new_sol_reserves >= curve_limit {
            self.is_completed = true;
            Some(CompletionRecord { final_sol_reserves: new_sol_reserves, final_token_reserves: new_token_reserves })
        } else {
            None
        };
        Ok(BuyPlan {
            fee_lamports,
            curve_lamports,
            tokens_to_user,
            settlement: Ok(BuySettlement { purchase, completion }),
        })
    }

    /// A sell of `amount_in` tokens for `amount_out` lamports, of which
    /// `fee_amount` is the fee. Refused when fewer than `min_amount_out`
    /// lamports come out. Otherwise the seller hands over the tokens, receives
    /// the lamports less the fee, and the fee recipient receives the fee. The
    /// curve's reserves are checked and the trade is priced, but the curve
    /// itself is left as it was.
    #[allow(non_snake_case)]
    pub fn Sell(
        &mut self,
        amount_in: u64,
        min_amount_out: u64,
        amount_out: u64,
        fee_amount: u64,
    ) -> (r: Result<SellPlan, Error>)
        requires
            old(self).sell_is_total(amount_in, min_amount_out, amount_out, fee_amount),
        ensures
            *final(self) == *old(self),
            amount_out < min_amount_out ==> r == Err::<SellPlan, Error>(Error::InsufficientAmountOut),
            amount_out >= min_amount_out ==> r is Ok,
            r matches Ok(plan) ==> {
                &&& plan.tokens_from_user == amount_in
                &&& plan.lamports_to_user == amount_out - fee_amount
                &&& plan.fee_lamports == fee_amount
                &&& plan.lamports_to_user + plan.fee_lamports == amount_out
                &&& plan.settlement == old(self).sell_settlement(amount_in, amount_out, fee_amount)
            },
    {
        if amount_out < min_amount_out {
            return Err(Error::InsufficientAmountOut);
        }
        let tokens_from_user = amount_in;
        let lamports_to_user = amount_out - fee_amount;
        let fee_lamports = fee_amount;

        let new_token_reserves = match self.virtual_token_reserve.checked_add(amount_in) {
            Some(v) => v,
            None => {
                return Ok(SellPlan { tokens_from_user, lamports_to_user, fee_lamports, settlement: Err(Error::InvalidReserves) });
            },
        };
        let new_sol_reserves = match self.virtual_sol_reserve.checked_sub(amount_out) {
            Some(v) => v,
            None => {
                return Ok(SellPlan { tokens_from_user, lamports_to_user, fee_lamports, settlement: Err(Error::InvalidReserves) });
            },
        };
        let sale = TradeRecord {
            sol_amount: amount_in,
            token_amount: amount_out,
            fee_amount,
            price: new_sol_reserves / new_token_reserves,
        };
        Ok(SellPlan { tokens_from_user, lamports_to_user, fee_lamports, settlement: Ok(sale) })
    }
}

/// A swap that passes the checks before pricing pays its fee out of what comes
/// in: the fee and what is left after it add up to the amount in.
pub proof fn lemma_fee_comes_out_of_amount_in(s: BondingCurve, amount_in: u64, direction: u8, fee_amount: u64)
    requires
        s.spec_amount_after_fee(amount_in, direction, fee_amount) is Ok,
    ensures
        fee_amount <= amount_in,
        s.spec_amount_after_fee(amount_in, direction, fee_amount) == Ok::<u64, Error>((amount_in - fee_amount) as u64),
        direction == 0 ==> s.virtual_sol_reserve > 0,
        direction != 0 ==> s.virtual_token_reserve > 0,
{
}

/// A settled buy moves the virtual reserves by exactly the trade: the token
/// reserve falls by the tokens bought and the lamport reserve rises by what
/// the buyer paid less the fee. The real reserves, the supply and the
/// migration flag are untouched.
pub proof fn lemma_buy_moves_reserves_by_the_trade(s: BondingCurve, curve_limit: u64, amount_in: u64, amount_out: u64, fee_amount: u64)
    requires
        fee_amount <= amount_in,
        s.buy_settlement(curve_limit, amount_in, amount_out, fee_amount) is Ok,
    ensures
        ({
            let t = s.after_buy(curve_limit, amount_in, amount_out, fee_amount);
            &&& t.virtual_token_reserve + amount_out == s.virtual_token_reserve
            &&& t.virtual_sol_reserve == s.virtual_sol_reserve + amount_in - fee_amount
            &&& t.real_token_reserve == s.real_token_reserve
            &&& t.real_sol_reserve == s.real_sol_reserve
            &&& t.token_total_supply == s.token_total_supply
            &&& t.is_migrated == s.is_migrated
            &&& t.reserved == s.reserved
        }),
{
}

/// Once a curve is completed it stays completed: a settled buy never clears
/// the flag, and it sets the flag exactly when the lamport reserve reaches the
/// curve limit, in which case the buy reports the completion.
pub proof fn lemma_completion_is_permanent(s: BondingCurve, curve_limit: u64, amount_in: u64, amount_out: u64, fee_amount: u64)
    requires
        fee_amount <= amount_in,
        s.buy_settlement(curve_limit, amount_in, amount_out, fee_amount) is Ok,
    ensures
        s.is_completed ==> s.after_buy(curve_limit, amount_in, amount_out, fee_amount).is_completed,
        s.after_buy(curve_limit, amount_in, amount_out, fee_amount).is_completed
            == (s.is_completed || s.after_buy(curve_limit, amount_in, amount_out, fee_amount).virtual_sol_reserve >= curve_limit),
        s.buy_settlement(curve_limit, amount_in, amount_out, fee_amount)->Ok_0.completion is Some
            == (s.after_buy(curve_limit, amount_in, amount_out, fee_amount).virtual_sol_reserve >= curve_limit),
{
}

/// Two settled buys in a row move the reserves by the sum of the two trades.
pub proof fn lemma_buys_add_up(
    s: BondingCurve,
    curve_limit: u64,
    in1: u64,
    out1: u64,
    fee1: u64,
    in2: u64,
    out2: u64,
    fee2: u64,
)
    requires
        fee1 <= in1,
        fee2 <= in2,
        s.buy_settlement(curve_limit, in1, out1, fee1) is Ok,
        s.after_buy(curve_limit, in1, out1, fee1).buy_settlement(curve_limit, in2, out2, fee2) is Ok,
    ensures
        ({
            let t = s.after_buy(curve_limit, in1, out1, fee1).after_buy(curve_limit, in2, out2, fee2);
            &&& t.virtual_token_reserve + out1 + out2 == s.virtual_token_reserve
            &&& t.virtual_sol_reserve == s.virtual_sol_reserve + (in1 - fee1) + (in2 - fee2)
            &&& s.is_completed ==> t.is_completed
        }),
{
}

/// The price a settled trade reports is the lamport reserve after the trade
/// divided by the token reserve after it, rounded down.
pub proof fn lemma_trade_price_is_floor_of_reserve_ratio(s: BondingCurve, curve_limit: u64, amount_in: u64, amount_out: u64, fee_amount: u64)
    requires
        fee_amount <= amount_in,
        s.buy_settlement(curve_limit, amount_in, amount_out, fee_amount) is Ok,
        amount_out != s.virtual_token_reserve,
    ensures
        ({
            let t = s.after_buy(curve_limit, amount_in, amount_out, fee_amount);
            let price = s.buy_settlement(curve_limit, amount_in, amount_out, fee_amount)->Ok_0.purchase.price;
            &&& price * t.virtual_token_reserve <= t.virtual_sol_reserve
            &&& t.virtual_sol_reserve < (price + 1) * t.virtual_token_reserve
        }),
{
    let t = s.after_buy(curve_limit, amount_in, amount_out, fee_amount);
    let a = t.virtual_sol_reserve as int;
    let b = t.virtual_token_reserve as int;
    assert(b > 0);
    vstd::arithmetic::div_mod::lemma_fundamental_div_mod(a, b);
    assert((a / b) * b <= a && a < (a / b + 1) * b) by (nonlinear_arith)
        requires
            b > 0,
            a == b * (a / b) + a % b,
            0 <= a % b < b,
    ;
}

/// The checks before pricing refuse a swap only for the two reasons they name:
/// a fee above the input, or an empty pricing reserve (lamports for a buy,
/// tokens for a sell). Any other swap goes on with the input less the fee.
pub proof fn law_amount_after_fee_refuses_only_for_its_reasons(s: BondingCurve, amount_in: u64, direction: u8, fee_amount: u64)
    ensures
        fee_amount > amount_in ==> s.spec_amount_after_fee(amount_in, direction, fee_amount) == Err::<u64, Error>(Error::InsufficientFunds),
        fee_amount <= amount_in && direction == 0 && s.virtual_sol_reserve == 0
            ==> s.spec_amount_after_fee(amount_in, direction, fee_amount) == Err::<u64, Error>(Error::DivisionByZero),
        fee_amount <= amount_in && direction != 0 && s.virtual_token_reserve == 0
            ==> s.spec_amount_after_fee(amount_in, direction, fee_amount) == Err::<u64, Error>(Error::DivisionByZero),
        fee_amount <= amount_in && (direction == 0 ==> s.virtual_sol_reserve > 0) && (direction != 0 ==> s.virtual_token_reserve > 0)
            ==> s.spec_amount_after_fee(amount_in, direction, fee_amount) == Ok::<u64, Error>((amount_in - fee_amount) as u64),
{
}

/// A buy settles exactly when its reserves stay in range, whatever the curve
/// limit: the token reserve covers the tokens bought and the lamport reserve
/// plus the payment less the fee fits in `u64`. A settled buy reports the
/// amounts it was given and, as its price, the lamports per token left after
/// it, rounded down; it reports a completion, with the reserves after the buy,
/// exactly when those lamports reach the curve limit, and the curve is then
/// completed.
pub proof fn law_buy_settles_whenever_reserves_fit(s: BondingCurve, curve_limit: u64, amount_in: u64, amount_out: u64, fee_amount: u64)
    requires
        fee_amount <= amount_in,
    ensures
        (s.buy_settlement(curve_limit, amount_in, amount_out, fee_amount) is Ok)
            == (amount_out <= s.virtual_token_reserve && s.virtual_sol_reserve + amount_in - fee_amount <= u64::MAX),
        !(s.buy_settlement(curve_limit, amount_in, amount_out, fee_amount) is Ok)
            ==> s.buy_settlement(curve_limit, amount_in, amount_out, fee_amount) == Err::<BuySettlement, Error>(Error::InvalidReserves),
        s.buy_settlement(curve_limit, amount_in, amount_out, fee_amount) is Ok ==> ({
            let settled = s.buy_settlement(curve_limit, amount_in, amount_out, fee_amount)->Ok_0;
            let new_sol = s.virtual_sol_reserve + amount_in - fee_amount;
            let new_token = s.virtual_token_reserve - amount_out;
            let after = s.after_buy(curve_limit, amount_in, amount_out, fee_amount);
            &&& settled.purchase.sol_amount == amount_in
            &&& settled.purchase.token_amount == amount_out
            &&& settled.purchase.fee_amount == fee_amount
            &&& after.virtual_sol_reserve == new_sol
            &&& after.virtual_token_reserve == new_token
            &&& (new_token > 0 ==> settled.purchase.price * new_token <= new_sol
                && new_sol < (settled.purchase.price + 1) * new_token)
            &&& (settled.completion is Some) == (new_sol >= curve_limit)
            &&& new_sol >= curve_limit ==> settled.completion == Some(CompletionRecord {
                    final_sol_reserves: new_sol as u64,
                    final_token_reserves: new_token as u64,
                })
            &&& new_sol >= curve_limit ==> after.is_completed
            &&& new_sol < curve_limit ==> after.is_completed == s.is_completed
        }),
{
    if s.buy_settlement(curve_limit, amount_in, amount_out, fee_amount) is Ok {
        let new_sol = s.virtual_sol_reserve + amount_in - fee_amount;
        let new_token = s.virtual_token_reserve - amount_out;
        if new_token > 0 {
            vstd::arithmetic::div_mod::lemma_fundamental_div_mod(new_sol, new_token);
            assert((new_sol / new_token) * new_token <= new_sol && new_sol < (new_sol / new_token + 1) * new_token)
                by (nonlinear_arith)
                requires
                    new_token > 0,
                    new_sol == new_token * (new_sol / new_token) + new_sol % new_token,
                    0 <= new_sol % new_token < new_token,
            ;
        }
    }
}

/// A sell settles exactly when its reserves stay in range: the token reserve
/// plus the tokens sold fits in `u64` and the lamport reserve covers the
/// lamports paid out. A settled sell reports the amounts it was given and, as
/// its price, the lamports per token left after the sale, rounded down.
pub proof fn law_sell_settles_whenever_reserves_fit(s: BondingCurve, amount_in: u64, amount_out: u64, fee_amount: u64)
    ensures
        (s.sell_settlement(amount_in, amount_out, fee_amount) is Ok)
            == (s.virtual_token_reserve + amount_in <= u64::MAX && amount_out <= s.virtual_sol_reserve),
        !(s.sell_settlement(amount_in, amount_out, fee_amount) is Ok)
            ==> s.sell_settlement(amount_in, amount_out, fee_amount) == Err::<TradeRecord, Error>(Error::InvalidReserves),
        s.sell_settlement(amount_in, amount_out, fee_amount) is Ok ==> ({
            let sale = s.sell_settlement(amount_in, amount_out, fee_amount)->Ok_0;
            let new_sol = s.virtual_sol_reserve - amount_out;
            let new_token = s.virtual_token_reserve + amount_in;
            &&& sale.sol_amount == amount_in
            &&& sale.token_amount == amount_out
            &&& sale.fee_amount == fee_amount
            &&& (new_token > 0 ==> sale.price * new_token <= new_sol && new_sol < (sale.price + 1) * new_token)
        }),
{
    if s.sell_settlement(amount_in, amount_out, fee_amount) is Ok {
        let new_sol = s.virtual_sol_reserve - amount_out;
        let new_token = s.virtual_token_reserve + amount_in;
        if new_token > 0 {
            vstd::arithmetic::div_mod::lemma_fundamental_div_mod(new_sol, new_token);
            assert((new_sol / new_token) * new_token <= new_sol && new_sol < (new_sol / new_token + 1) * new_token)
                by (nonlinear_arith)
                requires
                    new_token > 0,
                    new_sol == new_token * (new_sol / new_token) + new_sol % new_token,
                    0 <= new_sol % new_token < new_token,
            ;
        }
    }
}

} // verus!
