//! How the fee collected on a trade is shared out.
use vstd::prelude::*;
use crate::accounts::FeeRecipients;
use crate::accounts::FEE_SHARE_DIVIDER;
use crate::fixed_point::spec_mul_div;
use crate::token_swap::SymmetryTokenSwap;

verus! {

/// The four parts of a collected fee.
#[derive(Clone, Copy, Debug)]
pub struct FeeSplit {
    /// What goes to the protocol.
    pub symmetry_fee: u64,
    /// What goes to the host that referred the trade.
    pub host_fee: u64,
    /// What goes to the pool's manager.
    pub manager_fee: u64,
    /// What stays in the pool.
    pub fund_fee: u64,
}

/// A recipient's part of `total_fees`: `share` hundredths, rounded down.
pub open spec fn fee_share(total_fees: nat, share: nat) -> nat {
    spec_mul_div(total_fees, share, FEE_SHARE_DIVIDER as nat)
}

/// What stays in the pool of `total_fees` once the three recipients are paid.
pub open spec fn pool_share(total_fees: nat, recipients: FeeRecipients) -> nat {
    (total_fees - fee_share(total_fees, recipients.symmetry_bps as nat) - fee_share(
        total_fees,
        recipients.host_bps as nat,
    ) - fee_share(total_fees, recipients.manager_bps as nat)) as nat
}

/// The three recipients together never get more than was collected.
pub proof fn lemma_fee_shares_bounded(total_fees: nat, recipients: FeeRecipients)
    requires
        recipients.wf(),
        total_fees <= u64::MAX,
    ensures
        fee_share(total_fees, recipients.symmetry_bps as nat) + fee_share(
            total_fees,
            recipients.host_bps as nat,
        ) + fee_share(total_fees, recipients.manager_bps as nat) <= total_fees,
        fee_share(total_fees, recipients.symmetry_bps as nat) == (total_fees
            * recipients.symmetry_bps) / 100,
        fee_share(total_fees, recipients.host_bps as nat) == (total_fees * recipients.host_bps)
            / 100,
        fee_share(total_fees, recipients.manager_bps as nat) == (total_fees
            * recipients.manager_bps) / 100,
{
    let t = total_fees as int;
    let a = recipients.symmetry_bps as int;
    let b = recipients.host_bps as int;
    let c = recipients.manager_bps as int;
    assert((t * a) / 100 + (t * b) / 100 + (t * c) / 100 <= t && (t * a) / 100 <= t && (t * b)
        / 100 <= t && (t * c) / 100 <= t) by (nonlinear_arith)
        requires
            0 <= t,
            0 <= a,
            0 <= b,
            0 <= c,
            a + b + c <= 100,
    ;
}

/// The four parts of a fee add up to the fee: nothing is lost to rounding,
/// and nothing is made.
pub proof fn fee_split_conserves(total_fees: nat, recipients: FeeRecipients)
    requires
        recipients.wf(),
        total_fees <= u64::MAX,
    ensures
        fee_share(total_fees, recipients.symmetry_bps as nat) + fee_share(
            total_fees,
            recipients.host_bps as nat,
        ) + fee_share(total_fees, recipients.manager_bps as nat) + pool_share(
            total_fees,
            recipients,
        ) == total_fees,
{
    lemma_fee_shares_bounded(total_fees, recipients);
}

impl SymmetryTokenSwap {
    /// Shares `total_fees` out: each recipient gets its hundredths, rounded
    /// down, and the pool keeps the rest, so that nothing is lost or made.
    pub fn split_fees(total_fees: u64, recipients: FeeRecipients) -> (r: FeeSplit)
        requires
            recipients.wf(),
        ensures
            r.symmetry_fee == fee_share(total_fees as nat, recipients.symmetry_bps as nat),
            r.host_fee == fee_share(total_fees as nat, recipients.host_bps as nat),
            r.manager_fee == fee_share(total_fees as nat, recipients.manager_bps as nat),
            r.fund_fee == pool_share(total_fees as nat, recipients),
            r.symmetry_fee + r.host_fee + r.manager_fee + r.fund_fee == total_fees,
    {
        proof {
            lemma_fee_shares_bounded(total_fees as nat, recipients);
        }
        let symmetry_fee = Self::mul_div(total_fees, recipients.symmetry_bps, FEE_SHARE_DIVIDER);
        let host_fee = Self::mul_div(total_fees, recipients.host_bps, FEE_SHARE_DIVIDER);
        let manager_fee = Self::mul_div(total_fees, recipients.manager_bps, FEE_SHARE_DIVIDER);
        let fund_fee = total_fees - symmetry_fee - host_fee - manager_fee;
        FeeSplit { symmetry_fee, host_fee, manager_fee, fund_fee }
    }
}

} // verus!
