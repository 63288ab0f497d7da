use vstd::prelude::*;
use crate::state::State;
use crate::convert::Rates;
use crate::transition::spec_bid_error;
use crate::transition::spec_prior_stake;
use crate::transition::spec_refund;
use crate::transition::Refund;
use crate::transition::Sender;

verus! {

/// Monotonic stake: the custodied balance holds exactly the previously
/// accepted payment before a new payment is credited, so whenever a bid is
/// accepted, its payment strictly exceeds the payment accepted before it.
pub proof fn lemma_monotonic_stake(
    state: State,
    sender: Sender,
    amount: u64,
    self_balance: u64,
    rates: Rates,
    parameter: Seq<u8>,
    prev_amount: u64,
)
    requires
        amount <= self_balance,
        spec_prior_stake(amount, self_balance) == prev_amount,
        spec_bid_error(state, sender, amount, self_balance, rates, parameter) is None,
    ensures
        amount > prev_amount,
{
}

/// Refund conservation: the refund a successful bid instructs goes to the
/// prior leader and carries exactly the prior stake, so paying it out
/// increases the prior leader's balance by that stake and leaves the
/// contract custodying exactly the new payment.
pub proof fn lemma_refund_conservation(
    state: State,
    amount: u64,
    self_balance: u64,
    refund: Refund,
)
    requires
        amount <= self_balance,
        spec_refund(state, amount, self_balance) == Some(refund),
    ensures
        state.richest_account == Some(refund.to),
        refund.micro_ccd == spec_prior_stake(amount, self_balance),
        self_balance - refund.micro_ccd == amount,
{
}

/// Idempotent reads: every accessor is a function of the leadership record
/// alone, so two reads with no transition in between agree.
pub proof fn lemma_reads_idempotent(s1: State, s2: State)
    requires
        s1 == s2,
    ensures
        s1.richest_account == s2.richest_account,
        s1.richest_message@ == s2.richest_message@,
        s1.minimum_raise == s2.minimum_raise,
{
}

} // verus!
