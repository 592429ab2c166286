//! Fee policies and their resolution.
//!
//! A custom policy fixes the fee outright; an automatic policy derives it
//! from a simulated gas estimate: the gas limit is the estimate scaled by a
//! safety multiplier, rounded up, and the fee amount is the gas limit times
//! the gas price.  Results that exceed the machine's integer range saturate.

use vstd::prelude::*;
use vstd::string::StringExecFns;
use crate::coin::Coin;

verus! {

/// The fixed denomination every fee is paid in, a constant of the session.
pub open spec fn fee_denom_chars() -> Seq<char> {
    "uosmo"@
}

/// The safety multiplier applied to a simulated gas estimate, in
/// thousandths: `1200` scales an estimate by 1.2.
#[derive(Clone, Copy, Debug, PartialEq, Eq, Structural)]
pub struct GasAdjustment {
    pub thousandths: u64,
}

/// The multiplier account initialisation installs: 1.2.
pub fn default_gas_adjustment() -> (r: GasAdjustment)
    ensures
        r.thousandths == 1200,
{
    GasAdjustment { thousandths: 1200 }
}

/// How a transaction's fee is chosen.
pub enum FeeSetting {
    /// Simulate the transaction, then scale the reported gas.
    Auto { gas_price: Coin, gas_adjustment: GasAdjustment },
    /// Use exactly this fee; no simulation happens.
    Custom { amount: Coin, gas_limit: u64 },
}

impl FeeSetting {
    pub fn clone(&self) -> (r: FeeSetting)
        ensures
            r == *self,
    {
        match self {
            FeeSetting::Auto { gas_price, gas_adjustment } => FeeSetting::Auto {
                gas_price: gas_price.clone(),
                gas_adjustment: *gas_adjustment,
            },
            FeeSetting::Custom { amount, gas_limit } => FeeSetting::Custom {
                amount: amount.clone(),
                gas_limit: *gas_limit,
            },
        }
    }
}

/// A fully resolved fee: the amount paid and the gas limit bought.
#[derive(Debug, PartialEq, Eq)]
pub struct FeeData {
    pub amount: Coin,
    pub gas_limit: u64,
}

impl FeeData {
    pub fn clone(&self) -> (r: FeeData)
        ensures
            r == *self,
    {
        FeeData { amount: self.amount.clone(), gas_limit: self.gas_limit }
    }
}

/// `ceil(gas_used * thousandths / 1000)`: the gas limit an automatic policy
/// buys for a simulated estimate, before saturation.
pub open spec fn spec_auto_gas_limit(gas_used: u64, thousandths: u64) -> nat {
    (((gas_used as nat) * (thousandths as nat) + 999) / 1000) as nat
}

/// The computed gas limit is exactly the ceiling of the scaled estimate:
/// it covers the product, and one unit less of gas would not.
pub proof fn lemma_auto_gas_limit_is_ceiling(gas_used: u64, thousandths: u64)
    ensures
        spec_auto_gas_limit(gas_used, thousandths) * 1000 >= (gas_used as nat) * (
        thousandths as nat),
        spec_auto_gas_limit(gas_used, thousandths) > 0 ==> (spec_auto_gas_limit(
            gas_used,
            thousandths,
        ) - 1) * 1000 < (gas_used as nat) * (thousandths as nat),
{
    let p = (gas_used as nat) * (thousandths as nat);
    let q = spec_auto_gas_limit(gas_used, thousandths);
    assert(q == ((p + 999) / 1000));
    assert(q * 1000 >= p && (q > 0 ==> (q - 1) * 1000 < p)) by (nonlinear_arith)
        requires
            q == ((p + 999) / 1000),
            p >= 0,
    ;
}

/// What it means for `r` to be the resolution of an automatic fee policy
/// against a simulated gas estimate: the gas limit is
/// `ceil(gas_used * adjustment)` and the fee amount is
/// `gas_limit * gas_price`, each saturating at its integer's range; the fee
/// is paid in the fixed fee denomination, whatever denomination the gas
/// price was quoted in.
pub open spec fn auto_fee_ok(
    r: FeeData,
    gas_price: Coin,
    gas_adjustment: GasAdjustment,
    gas_used: u64,
) -> bool {
    &&& (spec_auto_gas_limit(gas_used, gas_adjustment.thousandths) <= u64::MAX ==> r.gas_limit
        == spec_auto_gas_limit(gas_used, gas_adjustment.thousandths))
    &&& (spec_auto_gas_limit(gas_used, gas_adjustment.thousandths) > u64::MAX ==> r.gas_limit
        == u64::MAX)
    &&& ((r.gas_limit as nat) * (gas_price.amount as nat) <= u128::MAX ==> r.amount.amount == (
    r.gas_limit as nat) * (gas_price.amount as nat))
    &&& ((r.gas_limit as nat) * (gas_price.amount as nat) > u128::MAX ==> r.amount.amount
        == u128::MAX)
    &&& r.amount.denom@ == fee_denom_chars()
}

/// Resolves an automatic fee policy against a simulated gas estimate.
pub fn resolve_auto(gas_price: &Coin, gas_adjustment: GasAdjustment, gas_used: u64) -> (r: FeeData)
    ensures
        auto_fee_ok(r, *gas_price, gas_adjustment, gas_used),
{
    proof {
        assert((gas_used as nat) * (gas_adjustment.thousandths as nat) + 999 < u128::MAX)
            by (nonlinear_arith)
            requires
                gas_used <= u64::MAX,
                gas_adjustment.thousandths <= u64::MAX,
        ;
    }
    let scaled: u128 = (gas_used as u128) * (gas_adjustment.thousandths as u128);
    let q: u128 = (scaled + 999) / 1000;
    let gas_limit: u64 = if q > u64::MAX as u128 {
        u64::MAX
    } else {
        q as u64
    };
    let fee_amount: u128 = if gas_price.amount == 0 {
        0
    } else if (gas_limit as u128) > u128::MAX / gas_price.amount {
        proof {
            assert((gas_limit as nat) * (gas_price.amount as nat) > u128::MAX) by (nonlinear_arith)
                requires
                    gas_price.amount > 0,
                    (gas_limit as nat) > (u128::MAX as nat) / (gas_price.amount as nat),
            ;
        }
        u128::MAX
    } else {
        proof {
            assert((gas_limit as nat) * (gas_price.amount as nat) <= u128::MAX) by (nonlinear_arith)
                requires
                    gas_price.amount > 0,
                    (gas_limit as nat) <= (u128::MAX as nat) / (gas_price.amount as nat),
            ;
        }
        (gas_limit as u128) * gas_price.amount
    };
    FeeData { amount: Coin { denom: String::from_str("uosmo"), amount: fee_amount }, gas_limit }
}

/// Resolves a custom fee policy: the stored amount and gas limit, verbatim,
/// with no simulation and no bridge traffic.
pub fn resolve_custom(amount: Coin, gas_limit: u64) -> (r: FeeData)
    ensures
        r.amount == amount,
        r.gas_limit == gas_limit,
{
    FeeData { amount, gas_limit }
}

} // verus!
