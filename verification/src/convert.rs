use vstd::prelude::*;

verus! {

/// An exchange rate between two quantities, held as a numerator/denominator
/// pair. The hosting ledger guarantees both parts are non-zero.
#[derive(Clone, Copy, PartialEq, Eq, Structural, Debug)]
pub struct Rate {
    pub numerator: u64,
    pub denominator: u64,
}

/// The exchange rates the hosting ledger publishes for the current block:
/// euro per unit of execution energy, and micro CCD per euro.
#[derive(Clone, Copy, PartialEq, Eq, Structural, Debug)]
pub struct Rates {
    pub euro_per_energy: Rate,
    pub micro_ccd_per_euro: Rate,
}

/// The euro-cent worth of a micro-CCD amount at the given rates: the amount
/// times 100 times the micro-CCD-per-euro denominator, divided (flooring) by
/// its numerator, truncated to 64 bits.
pub open spec fn spec_euro_cent_of(rates: Rates, micro_ccd: u64) -> u64
    recommends
        rates.micro_ccd_per_euro.numerator != 0,
{
    (((micro_ccd * 100 * rates.micro_ccd_per_euro.denominator) / (
    rates.micro_ccd_per_euro.numerator as int)) % 0x10000000000000000) as u64
}

/// Relies on `concordium_std::ExchangeRates::convert_amount_to_euro_cent`:
/// it returns the amount's micro CCD times 100 times the rate's denominator,
/// divided by its numerator, computed in 128-bit arithmetic and truncated to
/// 64 bits. The bounds keep that computation from dividing by zero or
/// overflowing.
#[verifier::external_body]
pub(crate) fn convert_amount_to_euro_cent(rates: &Rates, micro_ccd: u64) -> (r: u64)
    requires
        rates.micro_ccd_per_euro.numerator != 0,
        micro_ccd * 100 * rates.micro_ccd_per_euro.denominator
            < 0x100000000000000000000000000000000,
    ensures
        r == spec_euro_cent_of(*rates, micro_ccd),
{
    let ex = concordium_std::ExchangeRates {
        euro_per_energy: concordium_std::ExchangeRate::new_unchecked(
            rates.euro_per_energy.numerator,
            rates.euro_per_energy.denominator,
        ),
        micro_ccd_per_euro: concordium_std::ExchangeRate::new_unchecked(
            rates.micro_ccd_per_euro.numerator,
            rates.micro_ccd_per_euro.denominator,
        ),
    };
    ex.convert_amount_to_euro_cent(concordium_std::Amount::from_micro_ccd(micro_ccd))
}

} // verus!
