//! A chat-driven Lightning payment agent: it recognises a small command
//! language in chat messages and orchestrates payment operations (balance
//! lookup, invoice creation, payment, transfer, currency conversion)
//! against an external custodial wallet service.

pub mod commands;
pub mod config;
pub mod dedup;
pub mod fiat;
pub mod join;
pub mod lnbits;
pub mod machine;
pub mod models;
pub mod parser;
pub mod registration;
pub mod replies;
pub mod resolver;
pub mod text;
pub mod wrappers;

use vstd::prelude::*;

verus! {

/// Millisatoshis per satoshi: the external wallet API accounts in
/// thousandths of a satoshi.
pub const MSAT_PER_SAT: u64 = 1000;

/// Converts a wallet balance reported by the external API (in
/// millisatoshis, possibly absent) to whole satoshis, truncating.
pub fn msat_balance_to_sats(balance: Option<u64>) -> (r: u64)
    ensures
        r == (match balance {
            Option::Some(b) => b / 1000,
            Option::None => 0u64,
        }),
{
    match balance {
        Option::Some(b) => b / MSAT_PER_SAT,
        Option::None => 0,
    }
}

} // verus!
