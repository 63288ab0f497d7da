use become_the_richest::convert::Rate;
use become_the_richest::convert::Rates;
use become_the_richest::state::init;
use become_the_richest::state::AccountId;
use become_the_richest::transition::become_the_richest;
use become_the_richest::transition::BecomeTheRichestErrors;
use become_the_richest::transition::Sender;

fn encode_string(s: &str) -> Vec<u8> {
    let mut v = (s.len() as u32).to_le_bytes().to_vec();
    v.extend_from_slice(s.as_bytes());
    v
}

fn plain_rates() -> Rates {
    Rates {
        euro_per_energy: Rate { numerator: 1, denominator: 1 },
        micro_ccd_per_euro: Rate { numerator: 1, denominator: 1 },
    }
}

fn fresh_state() -> become_the_richest::state::State {
    become_the_richest::state::State {
        richest_account: None,
        richest_message: String::from("fresh"),
        minimum_raise: 0,
    }
}

fn bid_with_parameter(parameter: &[u8]) -> Result<(), BecomeTheRichestErrors> {
    let mut state = fresh_state();
    become_the_richest(
        &mut state,
        Sender::Account(AccountId { bytes: [1; 32] }),
        10,
        10,
        &plain_rates(),
        parameter,
    )
    .map(|_| ())
}

#[test]
fn empty_parameter_is_a_parse_error() {
    assert_eq!(bid_with_parameter(&[]), Err(BecomeTheRichestErrors::ParseError));
}

#[test]
fn short_length_prefix_is_a_parse_error() {
    assert_eq!(bid_with_parameter(&[7, 0]), Err(BecomeTheRichestErrors::ParseError));
}

#[test]
fn truncated_payload_is_a_parse_error() {
    // The prefix announces five bytes but only one follows.
    assert_eq!(
        bid_with_parameter(&[5, 0, 0, 0, b'a']),
        Err(BecomeTheRichestErrors::ParseError)
    );
}

#[test]
fn invalid_utf8_is_a_parse_error() {
    assert_eq!(
        bid_with_parameter(&[1, 0, 0, 0, 0xff]),
        Err(BecomeTheRichestErrors::ParseError)
    );
}

#[test]
fn trailing_bytes_after_payload_are_ignored() {
    let mut state = fresh_state();
    let r = become_the_richest(
        &mut state,
        Sender::Account(AccountId { bytes: [2; 32] }),
        10,
        10,
        &plain_rates(),
        &[1, 0, 0, 0, b'a', 0xde, 0xad],
    );
    assert_eq!(r, Ok(None));
    assert_eq!(state.richest_message.as_str(), "a");
}

#[test]
fn message_decode_failure_wins_over_caller_check() {
    // The decode check comes first: a programmatic caller with a malformed
    // payload sees the parse error, not the caller rejection.
    let mut state = fresh_state();
    let r = become_the_richest(&mut state, Sender::Contract, 10, 10, &plain_rates(), &[]);
    assert_eq!(r, Err(BecomeTheRichestErrors::ParseError));
}

#[test]
fn init_reads_little_endian_minimum_raise() {
    let mut parameter = 0x0102030405060708u64.to_le_bytes().to_vec();
    parameter.extend(encode_string("hello"));
    let state = init(&parameter).expect("init should pass");
    assert_eq!(state.minimum_raise, 0x0102030405060708);
    assert_eq!(state.richest_message.as_str(), "hello");
    assert_eq!(state.richest_account, None);
}

#[test]
fn init_with_short_parameter_fails() {
    let r = init(&[1, 2, 3, 4, 5, 6, 7]);
    assert_eq!(r.err(), Some(BecomeTheRichestErrors::ParseError));
}

#[test]
fn init_with_truncated_message_fails() {
    let mut parameter = 9u64.to_le_bytes().to_vec();
    parameter.extend_from_slice(&[4, 0, 0, 0, b'a']);
    let r = init(&parameter);
    assert_eq!(r.err(), Some(BecomeTheRichestErrors::ParseError));
}

#[test]
fn init_with_empty_message_passes() {
    let mut parameter = 3u64.to_le_bytes().to_vec();
    parameter.extend(encode_string(""));
    let state = init(&parameter).expect("init should pass");
    assert_eq!(state.minimum_raise, 3);
    assert_eq!(state.richest_message.as_str(), "");
}

#[test]
fn multibyte_utf8_message_roundtrips() {
    let mut state = fresh_state();
    let r = become_the_richest(
        &mut state,
        Sender::Account(AccountId { bytes: [3; 32] }),
        10,
        10,
        &plain_rates(),
        &encode_string("héritier £1"),
    );
    assert_eq!(r, Ok(None));
    assert_eq!(state.richest_message.as_str(), "héritier £1");
}
