//! The texts of the agent's replies, as spec functions over character
//! sequences, with verified builders.

use vstd::prelude::*;
use crate::text::{cents_str, cents_to_dec, dec_str, u64_to_dec};
use crate::wrappers::{upper_of, uppercase};

verus! {

/// `s` wrapped in double quotes, as the replies render identities.
pub open spec fn quote(s: Seq<char>) -> Seq<char> {
    seq!['"'] + s + seq!['"']
}

fn quoted(s: &str) -> (r: String)
    ensures
        r@ == quote(s@),
{
    let mut r = String::from_str("\"");
    r.append(s);
    r.append("\"");
    proof {
        reveal_strlit("\"");
        assert(r@ =~= quote(s@));
    }
    r
}

/// The balance report: the balance in whole satoshis.
pub open spec fn balance_reply(sats: u64) -> Seq<char> {
    "Your balance is "@ + dec_str(sats as nat) + " Sats"@
}

pub fn build_balance_reply(sats: u64) -> (r: String)
    ensures
        r@ == balance_reply(sats),
{
    let mut r = String::from_str("Your balance is ");
    r.append(u64_to_dec(sats).as_str());
    r.append(" Sats");
    proof {
        assert(r@ =~= balance_reply(sats));
    }
    r
}

/// The reply after a plain invoice payment.
pub open spec fn paid_reply(sender: Seq<char>) -> Seq<char> {
    quote(sender) + " payed an invoice"@
}

pub fn build_paid_reply(sender: &str) -> (r: String)
    ensures
        r@ == paid_reply(sender@),
{
    let mut r = quoted(sender);
    r.append(" payed an invoice");
    proof {
        assert(r@ =~= paid_reply(sender@));
    }
    r
}

/// The reply after a completed send, with or without a memo.
pub open spec fn sent_reply(
    sender: Seq<char>,
    amount: u64,
    recipient: Seq<char>,
    memo: Option<Seq<char>>,
) -> Seq<char> {
    quote(sender) + " sent "@ + dec_str(amount as nat) + " Sats to "@ + quote(recipient) + (
    match memo {
        Option::Some(m) => " with memo "@ + quote(m),
        Option::None => Seq::<char>::empty(),
    })
}

pub fn build_sent_reply(sender: &str, amount: u64, recipient: &str, memo: &Option<String>) -> (r:
    String)
    ensures
        r@ == sent_reply(
            sender@,
            amount,
            recipient@,
            match memo {
                Option::Some(m) => Option::Some(m@),
                Option::None => Option::None,
            },
        ),
{
    let mut r = quoted(sender);
    r.append(" sent ");
    r.append(u64_to_dec(amount).as_str());
    r.append(" Sats to ");
    r.append(quoted(recipient).as_str());
    match memo {
        Option::Some(m) => {
            r.append(" with memo ");
            r.append(quoted(m.as_str()).as_str());
        },
        Option::None => {},
    }
    proof {
        assert(r@ =~= sent_reply(
            sender@,
            amount,
            recipient@,
            match memo {
                Option::Some(m) => Option::Some(m@),
                Option::None => Option::None,
            },
        ));
    }
    r
}

/// `is` for exactly one unit, `are` otherwise.
pub open spec fn is_are(one: bool) -> Seq<char> {
    if one {
        "is"@
    } else {
        "are"@
    }
}

/// The fiat-to-satoshi conversion report: the input amount with two
/// fraction digits, the currency upper-cased, singular/plural keyed on
/// whether the input is exactly one unit, and the satoshi result.
pub open spec fn fiat_to_sats_reply(
    amount_cents: u64,
    currency: Seq<char>,
    sats: u64,
) -> Seq<char> {
    cents_str(amount_cents as nat) + " "@ + upper_of(currency) + " "@ + is_are(
        amount_cents == 100,
    ) + " approximately "@ + dec_str(sats as nat) + " Sats."@
}

pub fn build_fiat_to_sats_reply(amount_cents: u64, currency: &str, sats: u64) -> (r: String)
    ensures
        r@ == fiat_to_sats_reply(amount_cents, currency@, sats),
{
    let mut r = cents_to_dec(amount_cents);
    r.append(" ");
    r.append(uppercase(currency).as_str());
    r.append(" ");
    if amount_cents == 100 {
        r.append("is");
    } else {
        r.append("are");
    }
    r.append(" approximately ");
    r.append(u64_to_dec(sats).as_str());
    r.append(" Sats.");
    proof {
        assert(r@ =~= fiat_to_sats_reply(amount_cents, currency@, sats));
    }
    r
}

/// The satoshi-to-fiat conversion report.
pub open spec fn sats_to_fiat_reply(
    sats: u64,
    currency: Seq<char>,
    fiat_cents: u64,
) -> Seq<char> {
    dec_str(sats as nat) + " Sats "@ + is_are(sats == 1) + " approximately "@ + cents_str(
        fiat_cents as nat,
    ) + " "@ + upper_of(currency) + "."@
}

pub fn build_sats_to_fiat_reply(sats: u64, currency: &str, fiat_cents: u64) -> (r: String)
    ensures
        r@ == sats_to_fiat_reply(sats, currency@, fiat_cents),
{
    let mut r = u64_to_dec(sats);
    r.append(" Sats ");
    if sats == 1 {
        r.append("is");
    } else {
        r.append("are");
    }
    r.append(" approximately ");
    r.append(cents_to_dec(fiat_cents).as_str());
    r.append(" ");
    r.append(uppercase(currency).as_str());
    r.append(".");
    proof {
        assert(r@ =~= sats_to_fiat_reply(sats, currency@, fiat_cents));
    }
    r
}

/// The help text, closing with the donation address in quotes.
pub open spec fn help_text(btc_donation_address: Seq<char>) -> Seq<char> {
    "Matrix-Lightning-Tip-Bot \"0.3.0\"\n!tip      - Reply to a message to tip it: !tip <amount> [<memo>]\n!balance - Check your balance: !balance\n!send    - Send funds to a user: !send <amount> <@user> or <@user:domain.com>, or a lightning adress <lightning@adress.com> [<memo>]\n!invoice - Receive over Lightning: !invoice <amount> [<memo>]\n!pay     - Pay  over Lightning: !pay <invoice>\n!help    - Read this help.\n!donate  - Donate to the matrix-lighting-tip-bot project: !donate <amount>\n!party   - Start a Party: !party\n!fiat-to-sats - Convert fiat to satoshis: !fiat-to-sats <amount> <currency (USD, EUR, CHF)>\n!sats-to-fiat - Convert satoshis to fiat: !sats-to-fiat <amount> <currency (USD, EUR, CHF)>\n!version - Print the version of this bot\nIf you wanna help consider donating, or sending some btc to :"@
        + quote(btc_donation_address)
}

pub fn build_help_text(btc_donation_address: &str) -> (r: String)
    ensures
        r@ == help_text(btc_donation_address@),
{
    let mut r = String::from_str(
        "Matrix-Lightning-Tip-Bot \"0.3.0\"\n!tip      - Reply to a message to tip it: !tip <amount> [<memo>]\n!balance - Check your balance: !balance\n!send    - Send funds to a user: !send <amount> <@user> or <@user:domain.com>, or a lightning adress <lightning@adress.com> [<memo>]\n!invoice - Receive over Lightning: !invoice <amount> [<memo>]\n!pay     - Pay  over Lightning: !pay <invoice>\n!help    - Read this help.\n!donate  - Donate to the matrix-lighting-tip-bot project: !donate <amount>\n!party   - Start a Party: !party\n!fiat-to-sats - Convert fiat to satoshis: !fiat-to-sats <amount> <currency (USD, EUR, CHF)>\n!sats-to-fiat - Convert satoshis to fiat: !sats-to-fiat <amount> <currency (USD, EUR, CHF)>\n!version - Print the version of this bot\nIf you wanna help consider donating, or sending some btc to :",
    );
    r.append(quoted(btc_donation_address).as_str());
    r
}

/// The version report.
pub open spec fn version_text() -> Seq<char> {
    "My version is \"0.3.0\""@
}

/// The donation memo: who the donation came from.
pub open spec fn donation_memo(sender: Seq<char>) -> Seq<char> {
    "a generouse donation from "@ + quote(sender)
}

pub fn build_donation_memo(sender: &str) -> (r: String)
    ensures
        r@ == donation_memo(sender@),
{
    let mut r = String::from_str("a generouse donation from ");
    r.append(quoted(sender).as_str());
    r
}

} // verus!
