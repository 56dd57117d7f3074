//! Fiat/satoshi conversion arithmetic, in exact integer form.
//!
//! Fiat amounts are carried in hundredths of a currency unit; an
//! exchange rate is the price of one bitcoin in those hundredths. The
//! conversions truncate, as the reported figures do, and the round
//! trip at a fixed rate loses at most the truncation tolerance.

use vstd::prelude::*;

verus! {

/// Satoshis per bitcoin.
pub const SATS_PER_BTC: u64 = 100_000_000;

/// The satoshi value of a fiat amount: `cents / rate * 1e8`,
/// truncated.
pub open spec fn fiat_to_sats_spec(amount_cents: nat, rate_cents: nat) -> nat {
    amount_cents * 100_000_000 / rate_cents
}

/// The fiat value of a satoshi amount: `sats * rate / 1e8`, truncated.
pub open spec fn sats_to_fiat_spec(sats: nat, rate_cents: nat) -> nat {
    sats * rate_cents / 100_000_000
}

/// Converts a fiat amount in hundredths to satoshis at the given
/// rate. `None` exactly when the result does not fit in a `u64`.
pub fn convert_fiat_to_sats(amount_cents: u64, rate_cents: u64) -> (r: Option<u64>)
    requires
        rate_cents > 0,
    ensures
        match r {
            Option::Some(v) => v as nat == fiat_to_sats_spec(
                amount_cents as nat,
                rate_cents as nat,
            ),
            Option::None => fiat_to_sats_spec(amount_cents as nat, rate_cents as nat)
                > u64::MAX,
        },
{
    proof {
        assert((amount_cents as u128) * (100_000_000 as u128) <= (u64::MAX as u128) * (
        100_000_000 as u128)) by (nonlinear_arith)
            requires
                amount_cents <= u64::MAX,
        ;
        assert((u64::MAX as u128) * (100_000_000 as u128) <= u128::MAX) by (nonlinear_arith);
    }
    let prod: u128 = (amount_cents as u128) * (SATS_PER_BTC as u128);
    let q: u128 = prod / (rate_cents as u128);
    if q > u64::MAX as u128 {
        Option::None
    } else {
        Option::Some(q as u64)
    }
}

/// Converts a satoshi amount to fiat hundredths at the given rate.
/// `None` exactly when the result does not fit in a `u64`.
pub fn convert_sats_to_fiat(sats: u64, rate_cents: u64) -> (r: Option<u64>)
    ensures
        match r {
            Option::Some(v) => v as nat == sats_to_fiat_spec(sats as nat, rate_cents as nat),
            Option::None => sats_to_fiat_spec(sats as nat, rate_cents as nat) > u64::MAX,
        },
{
    proof {
        assert((sats as u128) * (rate_cents as u128) <= (u64::MAX as u128) * (u64::MAX
            as u128)) by (nonlinear_arith)
            requires
                sats <= u64::MAX,
                rate_cents <= u64::MAX,
        ;
        assert((u64::MAX as u128) * (u64::MAX as u128) <= u128::MAX) by (nonlinear_arith);
    }
    let prod: u128 = (sats as u128) * (rate_cents as u128);
    let q: u128 = prod / (SATS_PER_BTC as u128);
    if q > u64::MAX as u128 {
        Option::None
    } else {
        Option::Some(q as u64)
    }
}

/// Converting a fiat amount to satoshis at a rate and back at the
/// same rate reproduces the amount to within the truncation
/// tolerance: the round trip never gains, and loses at most
/// `rate / 1e8 + 1` hundredths.
pub proof fn lemma_fiat_round_trip(amount_cents: int, rate_cents: int)
    requires
        amount_cents >= 0,
        rate_cents >= 1,
    ensures
        ({
            let s = amount_cents * 100_000_000 / rate_cents;
            let back = s * rate_cents / 100_000_000;
            back <= amount_cents && amount_cents - back <= rate_cents / 100_000_000 + 1
        }),
{
    let m: int = 100_000_000;
    let a = amount_cents;
    let rate = rate_cents;
    let s = a * m / rate;
    let back = s * rate / m;
    vstd::arithmetic::div_mod::lemma_fundamental_div_mod(a * m, rate);
    let r1 = (a * m) % rate;
    vstd::arithmetic::div_mod::lemma_mod_bound(a * m, rate);
    assert(a * m >= 0) by (nonlinear_arith)
        requires
            a >= 0,
            m > 0,
    ;
    assert(a * m == rate * s + r1);
    assert(0 <= r1 < rate);
    assert(s * rate == a * m - r1) by (nonlinear_arith)
        requires
            a * m == rate * s + r1,
    ;
    vstd::arithmetic::div_mod::lemma_fundamental_div_mod(s * rate, m);
    let r2 = (s * rate) % m;
    vstd::arithmetic::div_mod::lemma_mod_bound(s * rate, m);
    assert(s * rate == m * back + r2);
    assert(0 <= r2 < m);
    assert(m * (a - back) == r1 + r2) by (nonlinear_arith)
        requires
            a * m == rate * s + r1,
            s * rate == m * back + r2,
    ;
    assert(a - back >= 0) by (nonlinear_arith)
        requires
            m * (a - back) == r1 + r2,
            r1 >= 0,
            r2 >= 0,
            m > 0,
    ;
    let d = a - back;
    assert(m * d <= rate + m - 1);
    vstd::arithmetic::div_mod::lemma_div_multiples_vanish(d, m);
    assert((m * d) / m == d);
    vstd::arithmetic::div_mod::lemma_div_is_ordered(m * d, rate + m - 1, m);
    assert(d <= (rate + m - 1) / m);
    vstd::arithmetic::div_mod::lemma_div_is_ordered(rate + m - 1, rate + m, m);
    vstd::arithmetic::div_mod::lemma_hoist_over_denominator(rate, 1, m as nat);
    assert((rate + m) / m == rate / m + 1);
    assert(d <= rate / m + 1);
}

} // verus!
