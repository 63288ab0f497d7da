use vstd::prelude::*;
use vstd::bytes::u64_from_le_bytes;
use vstd::slice::slice_subrange;
use crate::codec::decode_string_from;
use crate::codec::spec_decode_init;
use crate::transition::BecomeTheRichestErrors;

verus! {

/// Identity of an individually held account: its 32 raw address bytes.
#[derive(Clone, Copy, PartialEq, Eq, Debug)]
pub struct AccountId {
    pub bytes: [u8; 32],
}

/// The persisted leadership record: who currently holds the richest
/// position, the message they supplied, and the minimum increment (in euro
/// cents) the next bid must clear.
#[derive(Clone, Debug)]
pub struct State {
    /// The richest account; absent until a first bid is accepted.
    pub richest_account: Option<AccountId>,
    /// The current leader's message.
    pub richest_message: String,
    /// Minimum raise the next bid must clear, in euro cents.
    pub minimum_raise: u64,
}

impl State {
    /// Returns the whole leadership record.
    pub fn view(&self) -> (r: &State)
        ensures
            r == self,
    {
        self
    }

    /// Returns the identity currently holding the richest position.
    pub fn view_richest_address(&self) -> (r: Option<AccountId>)
        ensures
            r == self.richest_account,
    {
        self.richest_account
    }

    /// Returns the current leader's message.
    pub fn view_richest_message(&self) -> (r: &String)
        ensures
            r@ == self.richest_message@,
    {
        &self.richest_message
    }

    /// Returns the minimum raise the next bid must clear, in euro cents.
    pub fn view_minimun_amount(&self) -> (r: u64)
        ensures
            r == self.minimum_raise,
    {
        self.minimum_raise
    }
}

/// Builds the initial leadership record from the configuration payload: no
/// leader yet, the supplied message, and the supplied minimum increment.
/// Fails exactly when the payload does not decode.
pub fn init(parameter: &[u8]) -> (r: Result<State, BecomeTheRichestErrors>)
    ensures
        match r {
            Ok(s) => {
                &&& spec_decode_init(parameter@) matches Some(p)
                &&& s.richest_account is None
                &&& s.minimum_raise == p.0
                &&& s.richest_message@ == p.1
            },
            Err(e) => {
                &&& spec_decode_init(parameter@) is None
                &&& e == BecomeTheRichestErrors::ParseError
            },
        },
{
    if parameter.len() < 8 {
        return Err(BecomeTheRichestErrors::ParseError);
    }
    let minimum_raise = u64_from_le_bytes(slice_subrange(parameter, 0, 8));
    match decode_string_from(parameter, 8) {
        Some(richest_message) => Ok(
            State { richest_account: None, richest_message, minimum_raise },
        ),
        None => Err(BecomeTheRichestErrors::ParseError),
    }
}

} // verus!
