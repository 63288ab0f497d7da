use vstd::prelude::*;
use crate::codec::decode_string_from;
use crate::codec::spec_decode_message;
use crate::convert::convert_amount_to_euro_cent;
use crate::convert::spec_euro_cent_of;
use crate::convert::Rates;
use crate::state::AccountId;
use crate::state::State;

verus! {

/// Who submitted a bid: an individually held account, or a deployed
/// contract acting programmatically.
#[derive(Clone, Copy, PartialEq, Eq, Debug)]
pub enum Sender {
    Account(AccountId),
    Contract,
}

/// The ways a bid is rejected. Every rejection leaves the leadership
/// record untouched.
#[derive(Clone, Copy, PartialEq, Eq, Structural, Debug)]
pub enum BecomeTheRichestErrors {
    /// The parameter payload does not decode.
    ParseError,
    /// A contract tried to bid; only accounts may become richest.
    OnlyAccount,
    /// The payment does not strictly exceed the current richest amount.
    AmountBelowCurrentRichest,
    /// The payment exceeds the current richest amount by less than the
    /// minimum raise.
    AmountBelowMinimumRaise,
}

/// Instruction to the host: return `micro_ccd` of custodied value to `to`.
#[derive(Clone, Copy, PartialEq, Eq, Debug)]
pub struct Refund {
    pub to: AccountId,
    pub micro_ccd: u64,
}

/// The custodied balance before the bid's payment was credited: the current
/// leader's stake.
pub open spec fn spec_prior_stake(amount: u64, self_balance: u64) -> int {
    self_balance - amount
}

/// How far the payment exceeds the prior stake.
pub open spec fn spec_delta(amount: u64, self_balance: u64) -> u64
    recommends
        amount <= self_balance,
        amount > spec_prior_stake(amount, self_balance),
{
    (amount - spec_prior_stake(amount, self_balance)) as u64
}

/// The first check a bid fails, if any, in the order the checks are made:
/// decoding, caller kind, strict comparison against the prior stake, then
/// the converted difference against the minimum raise.
pub open spec fn spec_bid_error(
    state: State,
    sender: Sender,
    amount: u64,
    self_balance: u64,
    rates: Rates,
    parameter: Seq<u8>,
) -> Option<BecomeTheRichestErrors> {
    if spec_decode_message(parameter) is None {
        Some(BecomeTheRichestErrors::ParseError)
    } else if !(sender is Account) {
        Some(BecomeTheRichestErrors::OnlyAccount)
    } else if !(amount > spec_prior_stake(amount, self_balance)) {
        Some(BecomeTheRichestErrors::AmountBelowCurrentRichest)
    } else if spec_euro_cent_of(rates, spec_delta(amount, self_balance)) < state.minimum_raise {
        Some(BecomeTheRichestErrors::AmountBelowMinimumRaise)
    } else {
        None
    }
}

/// The refund a successful bid owes: the prior stake back to the prior
/// leader, and nothing when no leader existed yet.
pub open spec fn spec_refund(state: State, amount: u64, self_balance: u64) -> Option<Refund> {
    match state.richest_account {
        Some(l) => Some(Refund { to: l, micro_ccd: (self_balance - amount) as u64 }),
        None => None,
    }
}

/// The minimum raise a successful bid installs: 10% of the payment's
/// euro-cent value, floored.
pub open spec fn spec_new_minimum_raise(rates: Rates, amount: u64) -> int {
    10 * spec_euro_cent_of(rates, amount) / 100
}

/// The bid transition. `self_balance` is the contract's custodied balance
/// with the bid's payment already credited, as the host reports it; the
/// prior stake is therefore `self_balance - amount`. On success the record
/// names the challenger as richest, carries their message, and holds a
/// minimum raise of 10% of the payment's euro-cent value; the returned
/// instruction tells the host to pay the prior stake back to the displaced
/// leader. On any rejection the record is left exactly as it was.
pub fn become_the_richest(
    state: &mut State,
    sender: Sender,
    amount: u64,
    self_balance: u64,
    rates: &Rates,
    parameter: &[u8],
) -> (r: Result<Option<Refund>, BecomeTheRichestErrors>)
    requires
        amount <= self_balance,
        rates.micro_ccd_per_euro.numerator != 0,
        self_balance * 100 * rates.micro_ccd_per_euro.denominator
            < 0x100000000000000000000000000000000,
    ensures
        match spec_bid_error(*old(state), sender, amount, self_balance, *rates, parameter@) {
            Some(e) => r == Err::<Option<Refund>, BecomeTheRichestErrors>(e) && *final (state)
                == *old(state),
            None => {
                &&& r == Ok::<Option<Refund>, BecomeTheRichestErrors>(
                    spec_refund(*old(state), amount, self_balance),
                )
                &&& (sender matches Sender::Account(acc) && final (state).richest_account == Some(
                    acc,
                ))
                &&& (spec_decode_message(parameter@) matches Some(m)
                    && final (state).richest_message@ == m)
                &&& final (state).minimum_raise == spec_new_minimum_raise(*rates, amount)
            },
        },
{
    let msg = match decode_string_from(parameter, 0) {
        Some(m) => m,
        None => {
            return Err(BecomeTheRichestErrors::ParseError);
        },
    };
    let sender_account = match sender {
        Sender::Contract => {
            return Err(BecomeTheRichestErrors::OnlyAccount);
        },
        Sender::Account(account_address) => account_address,
    };
    let prev_richest_amount: u64 = self_balance - amount;
    if !(amount > prev_richest_amount) {
        return Err(BecomeTheRichestErrors::AmountBelowCurrentRichest);
    }
    let amount_difference: u64 = amount - prev_richest_amount;
    proof {
        assert(amount_difference * 100 * rates.micro_ccd_per_euro.denominator <= self_balance * 100
            * rates.micro_ccd_per_euro.denominator) by (nonlinear_arith)
            requires
                amount_difference <= self_balance,
        ;
    }
    let euro_cent_difference = convert_amount_to_euro_cent(rates, amount_difference);
    if euro_cent_difference < state.minimum_raise {
        return Err(BecomeTheRichestErrors::AmountBelowMinimumRaise);
    }
    let refund = match state.richest_account {
        Some(account_address) => Some(
            Refund { to: account_address, micro_ccd: prev_richest_amount },
        ),
        None => None,
    };
    state.richest_account = Some(sender_account);
    proof {
        assert(amount * 100 * rates.micro_ccd_per_euro.denominator <= self_balance * 100
            * rates.micro_ccd_per_euro.denominator) by (nonlinear_arith)
            requires
                amount <= self_balance,
        ;
    }
    let euro_cent_richest = convert_amount_to_euro_cent(rates, amount);
    let raised: u128 = 10u128 * (euro_cent_richest as u128) / 100u128;
    proof {
        assert(10 * (euro_cent_richest as int) / 100 <= euro_cent_richest as int)
            by (nonlinear_arith);
    }
    state.minimum_raise = raised as u64;
    state.richest_message = msg;
    Ok(refund)
}

} // verus!
