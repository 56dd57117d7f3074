//! The command model: the closed set of commands the agent recognises,
//! the reply payload, and the per-command argument parsers.
//!
//! Each parser is specified against a spec-level parse function over the
//! token sequence of the message text, so that a recognised command's
//! fields are pinned down exactly.

use vstd::prelude::*;
use crate::text::{
    all_digits, digits_val, join_from, join_tokens_from, parse_cents, parse_cents_spec, parse_u64,
    split_ws, tokens_of,
};

verus! {

/// A recognised chat command. Immutable once constructed.
#[derive(Debug)]
pub enum Command {
    Tip { sender: String, amount: u64, memo: Option<String>, replyee: String },
    Balance { sender: String },
    Send { sender: String, amount: u64, recipient: String, memo: Option<String> },
    Invoice { sender: String, amount: u64, memo: Option<String> },
    Pay { sender: String, invoice: String },
    Help {},
    Donate { sender: String, amount: u64 },
    Party {},
    Version {},
    FiatToSats { sender: String, amount_cents: u64, currency: String },
    SatsToFiat { sender: String, amount_sats: u64, currency: String },
    NoCommand,
}

/// The mathematical value of a `Command`: the same shape over
/// character sequences.
pub ghost enum CommandView {
    Tip { sender: Seq<char>, amount: u64, memo: Option<Seq<char>>, replyee: Seq<char> },
    Balance { sender: Seq<char> },
    Send { sender: Seq<char>, amount: u64, recipient: Seq<char>, memo: Option<Seq<char>> },
    Invoice { sender: Seq<char>, amount: u64, memo: Option<Seq<char>> },
    Pay { sender: Seq<char>, invoice: Seq<char> },
    Help,
    Donate { sender: Seq<char>, amount: u64 },
    Party,
    Version,
    FiatToSats { sender: Seq<char>, amount_cents: u64, currency: Seq<char> },
    SatsToFiat { sender: Seq<char>, amount_sats: u64, currency: Seq<char> },
    NoCommand,
}

/// The view of an optional owned string.
pub open spec fn opt_str_view(o: Option<String>) -> Option<Seq<char>> {
    match o {
        Option::Some(s) => Option::Some(s@),
        Option::None => Option::None,
    }
}

impl View for Command {
    type V = CommandView;

    open spec fn view(&self) -> CommandView {
        match self {
            Command::Tip { sender, amount, memo, replyee } => CommandView::Tip {
                sender: sender@,
                amount: *amount,
                memo: opt_str_view(*memo),
                replyee: replyee@,
            },
            Command::Balance { sender } => CommandView::Balance { sender: sender@ },
            Command::Send { sender, amount, recipient, memo } => CommandView::Send {
                sender: sender@,
                amount: *amount,
                recipient: recipient@,
                memo: opt_str_view(*memo),
            },
            Command::Invoice { sender, amount, memo } => CommandView::Invoice {
                sender: sender@,
                amount: *amount,
                memo: opt_str_view(*memo),
            },
            Command::Pay { sender, invoice } => CommandView::Pay {
                sender: sender@,
                invoice: invoice@,
            },
            Command::Help {  } => CommandView::Help,
            Command::Donate { sender, amount } => CommandView::Donate {
                sender: sender@,
                amount: *amount,
            },
            Command::Party {  } => CommandView::Party,
            Command::Version {  } => CommandView::Version,
            Command::FiatToSats { sender, amount_cents, currency } => CommandView::FiatToSats {
                sender: sender@,
                amount_cents: *amount_cents,
                currency: currency@,
            },
            Command::SatsToFiat { sender, amount_sats, currency } => CommandView::SatsToFiat {
                sender: sender@,
                amount_sats: *amount_sats,
                currency: currency@,
            },
            Command::NoCommand => CommandView::NoCommand,
        }
    }
}

impl Command {
    /// Whether no actionable command was recognised.
    pub fn is_none(&self) -> (r: bool)
        ensures
            r == (self@ is NoCommand),
    {
        match self {
            Command::NoCommand => true,
            _ => false,
        }
    }
}

/// Why a message failed to parse as a command.
///
/// `Malformed` is the generic recognition failure; `UnresolvedRecipient`
/// is the distinct outcome for a send whose recipient matched no unique
/// identity, so the caller can give a more specific hint.
#[derive(Debug, Clone, Copy, PartialEq, Eq, Structural)]
pub enum RecognitionError {
    Malformed,
    UnresolvedRecipient,
}

/// The reply to a processed command: optional text and optional image.
#[derive(Debug)]
pub struct CommandReply {
    pub text: Option<String>,
    pub image: Option<Vec<u8>>,
}

/// The mathematical value of a `CommandReply`.
pub ghost struct CommandReplyView {
    pub text: Option<Seq<char>>,
    pub image: Option<Seq<u8>>,
}

impl View for CommandReply {
    type V = CommandReplyView;

    open spec fn view(&self) -> CommandReplyView {
        CommandReplyView {
            text: opt_str_view(self.text),
            image: match self.image {
                Option::Some(v) => Option::Some(v@),
                Option::None => Option::None,
            },
        }
    }
}

impl CommandReply {
    /// A reply that carries only text.
    pub fn text_only(text: &str) -> (r: CommandReply)
        ensures
            r@.text == Option::Some(text@),
            r@.image is None,
    {
        CommandReply { text: Option::Some(String::from_str(text)), image: Option::None }
    }

    /// A reply that carries text and an image.
    pub fn new(text: &str, image: Vec<u8>) -> (r: CommandReply)
        ensures
            r@.text == Option::Some(text@),
            r@.image == Option::Some(image@),
    {
        CommandReply { text: Option::Some(String::from_str(text)), image: Option::Some(image) }
    }

    /// Empty exactly when it has neither text nor image.
    pub fn is_empty(&self) -> (r: bool)
        ensures
            r == (self@.text is None && self@.image is None),
    {
        !self.text.is_some() && !self.image.is_some()
    }
}

/// Outcome of parsing one command's arguments.
pub ghost enum ParseOutcomeView {
    Recognized(CommandView),
    Refused(RecognitionError),
}

/// Whether the executable result `r` is the outcome `o`.
pub open spec fn reflects(r: Result<Command, RecognitionError>, o: ParseOutcomeView) -> bool {
    match r {
        Result::Ok(c) => o == ParseOutcomeView::Recognized(c@),
        Result::Err(e) => o == ParseOutcomeView::Refused(e),
    }
}

/// Whether a token is a well-formed non-negative integer amount.
pub open spec fn valid_amount(t: Seq<char>) -> bool {
    t.len() > 0 && all_digits(t) && digits_val(t) <= u64::MAX
}

/// The amount a well-formed amount token denotes.
pub open spec fn amount_of(t: Seq<char>) -> u64 {
    digits_val(t) as u64
}

/// The optional memo: the tokens from `from` on, joined with spaces.
pub open spec fn memo_from(ts: Seq<Seq<char>>, from: int) -> Option<Seq<char>> {
    if ts.len() > from {
        Option::Some(join_from(ts, from))
    } else {
        Option::None
    }
}

/// What `tip` returns: `!tip <amount> [<memo>]`, tipping the sender of
/// the replied-to message.
pub open spec fn spec_tip(sender: Seq<char>, text: Seq<char>, replyee: Seq<char>)
    -> ParseOutcomeView {
    let ts = tokens_of(text);
    if ts.len() < 2 || !valid_amount(ts[1]) {
        ParseOutcomeView::Refused(RecognitionError::Malformed)
    } else {
        ParseOutcomeView::Recognized(CommandView::Tip {
            sender,
            amount: amount_of(ts[1]),
            memo: memo_from(ts, 2),
            replyee,
        })
    }
}

/// Parses the arguments of a `!tip` command.
pub fn tip(sender: &str, text: &str, replyee: &str) -> (r: Result<Command, RecognitionError>)
    ensures
        reflects(r, spec_tip(sender@, text@, replyee@)),
{
    let ts = split_ws(text);
    if ts.len() < 2 {
        return Result::Err(RecognitionError::Malformed);
    }
    proof {
        assert(ts.deep_view()[1] == ts@[1]@);
    }
    match parse_u64(ts[1].as_str()) {
        Option::Some(amount) => {
            let memo = if ts.len() > 2 {
                Option::Some(join_tokens_from(&ts, 2))
            } else {
                Option::None
            };
            Result::Ok(
                Command::Tip {
                    sender: String::from_str(sender),
                    amount,
                    memo,
                    replyee: String::from_str(replyee),
                },
            )
        },
        Option::None => Result::Err(RecognitionError::Malformed),
    }
}

/// What `balance` returns: the sender's balance request.
pub open spec fn spec_balance(sender: Seq<char>) -> ParseOutcomeView {
    ParseOutcomeView::Recognized(CommandView::Balance { sender })
}

/// Parses a `!balance` command.
pub fn balance(sender: &str) -> (r: Result<Command, RecognitionError>)
    ensures
        reflects(r, spec_balance(sender@)),
{
    Result::Ok(Command::Balance { sender: String::from_str(sender) })
}

/// What `send` returns: `!send <amount> <recipient> [<memo>]`. The
/// recipient token must already be resolved by the identity resolver.
pub open spec fn spec_send(sender: Seq<char>, text: Seq<char>) -> ParseOutcomeView {
    let ts = tokens_of(text);
    if ts.len() < 3 || !valid_amount(ts[1]) {
        ParseOutcomeView::Refused(RecognitionError::Malformed)
    } else {
        ParseOutcomeView::Recognized(CommandView::Send {
            sender,
            amount: amount_of(ts[1]),
            recipient: ts[2],
            memo: memo_from(ts, 3),
        })
    }
}

/// Parses the arguments of a `!send` command.
pub fn send(sender: &str, text: &str) -> (r: Result<Command, RecognitionError>)
    ensures
        reflects(r, spec_send(sender@, text@)),
{
    let ts = split_ws(text);
    if ts.len() < 3 {
        return Result::Err(RecognitionError::Malformed);
    }
    proof {
        assert(ts.deep_view()[1] == ts@[1]@);
        assert(ts.deep_view()[2] == ts@[2]@);
    }
    match parse_u64(ts[1].as_str()) {
        Option::Some(amount) => {
            let memo = if ts.len() > 3 {
                Option::Some(join_tokens_from(&ts, 3))
            } else {
                Option::None
            };
            let recipient = String::from_str(ts[2].as_str());
            Result::Ok(Command::Send { sender: String::from_str(sender), amount, recipient, memo })
        },
        Option::None => Result::Err(RecognitionError::Malformed),
    }
}

/// What `invoice` returns: `!invoice <amount> [<memo>]`.
pub open spec fn spec_invoice(sender: Seq<char>, text: Seq<char>) -> ParseOutcomeView {
    let ts = tokens_of(text);
    if ts.len() < 2 || !valid_amount(ts[1]) {
        ParseOutcomeView::Refused(RecognitionError::Malformed)
    } else {
        ParseOutcomeView::Recognized(CommandView::Invoice {
            sender,
            amount: amount_of(ts[1]),
            memo: memo_from(ts, 2),
        })
    }
}

/// Parses the arguments of an `!invoice` command.
pub fn invoice(sender: &str, text: &str) -> (r: Result<Command, RecognitionError>)
    ensures
        reflects(r, spec_invoice(sender@, text@)),
{
    let ts = split_ws(text);
    if ts.len() < 2 {
        return Result::Err(RecognitionError::Malformed);
    }
    proof {
        assert(ts.deep_view()[1] == ts@[1]@);
    }
    match parse_u64(ts[1].as_str()) {
        Option::Some(amount) => {
            let memo = if ts.len() > 2 {
                Option::Some(join_tokens_from(&ts, 2))
            } else {
                Option::None
            };
            Result::Ok(Command::Invoice { sender: String::from_str(sender), amount, memo })
        },
        Option::None => Result::Err(RecognitionError::Malformed),
    }
}

/// What `pay` returns: `!pay <invoice>`.
pub open spec fn spec_pay(sender: Seq<char>, text: Seq<char>) -> ParseOutcomeView {
    let ts = tokens_of(text);
    if ts.len() < 2 {
        ParseOutcomeView::Refused(RecognitionError::Malformed)
    } else {
        ParseOutcomeView::Recognized(CommandView::Pay { sender, invoice: ts[1] })
    }
}

/// Parses the arguments of a `!pay` command.
pub fn pay(sender: &str, text: &str) -> (r: Result<Command, RecognitionError>)
    ensures
        reflects(r, spec_pay(sender@, text@)),
{
    let ts = split_ws(text);
    if ts.len() < 2 {
        return Result::Err(RecognitionError::Malformed);
    }
    proof {
        assert(ts.deep_view()[1] == ts@[1]@);
    }
    let invoice_text = String::from_str(ts[1].as_str());
    Result::Ok(Command::Pay { sender: String::from_str(sender), invoice: invoice_text })
}

/// Parses a `!help` command.
pub fn help() -> (r: Result<Command, RecognitionError>)
    ensures
        reflects(r, ParseOutcomeView::Recognized(CommandView::Help)),
{
    Result::Ok(Command::Help {  })
}

/// What `donate` returns: `!donate <amount>`.
pub open spec fn spec_donate(sender: Seq<char>, text: Seq<char>) -> ParseOutcomeView {
    let ts = tokens_of(text);
    if ts.len() < 2 || !valid_amount(ts[1]) {
        ParseOutcomeView::Refused(RecognitionError::Malformed)
    } else {
        ParseOutcomeView::Recognized(CommandView::Donate { sender, amount: amount_of(ts[1]) })
    }
}

/// Parses the arguments of a `!donate` command.
pub fn donate(sender: &str, text: &str) -> (r: Result<Command, RecognitionError>)
    ensures
        reflects(r, spec_donate(sender@, text@)),
{
    let ts = split_ws(text);
    if ts.len() < 2 {
        return Result::Err(RecognitionError::Malformed);
    }
    proof {
        assert(ts.deep_view()[1] == ts@[1]@);
    }
    match parse_u64(ts[1].as_str()) {
        Option::Some(amount) => Result::Ok(
            Command::Donate { sender: String::from_str(sender), amount },
        ),
        Option::None => Result::Err(RecognitionError::Malformed),
    }
}

/// Parses a `!party` command.
pub fn party() -> (r: Result<Command, RecognitionError>)
    ensures
        reflects(r, ParseOutcomeView::Recognized(CommandView::Party)),
{
    Result::Ok(Command::Party {  })
}

/// Parses a `!version` command.
pub fn version() -> (r: Result<Command, RecognitionError>)
    ensures
        reflects(r, ParseOutcomeView::Recognized(CommandView::Version)),
{
    Result::Ok(Command::Version {  })
}

/// What `fiat_to_sats` returns: `!fiat-to-sats <amount> <currency>`,
/// the amount a decimal in whole currency units, kept in hundredths.
pub open spec fn spec_fiat_to_sats(sender: Seq<char>, text: Seq<char>) -> ParseOutcomeView {
    let ts = tokens_of(text);
    if ts.len() < 3 || parse_cents_spec(ts[1]) is None {
        ParseOutcomeView::Refused(RecognitionError::Malformed)
    } else {
        ParseOutcomeView::Recognized(CommandView::FiatToSats {
            sender,
            amount_cents: parse_cents_spec(ts[1])->Some_0,
            currency: ts[2],
        })
    }
}

/// Parses the arguments of a `!fiat-to-sats` command.
pub fn fiat_to_sats(sender: &str, text: &str) -> (r: Result<Command, RecognitionError>)
    ensures
        reflects(r, spec_fiat_to_sats(sender@, text@)),
{
    let ts = split_ws(text);
    if ts.len() < 3 {
        return Result::Err(RecognitionError::Malformed);
    }
    proof {
        assert(ts.deep_view()[1] == ts@[1]@);
        assert(ts.deep_view()[2] == ts@[2]@);
    }
    match parse_cents(ts[1].as_str()) {
        Option::Some(amount_cents) => {
            let currency = String::from_str(ts[2].as_str());
            Result::Ok(
                Command::FiatToSats { sender: String::from_str(sender), amount_cents, currency },
            )
        },
        Option::None => Result::Err(RecognitionError::Malformed),
    }
}

/// What `sats_to_fiat` returns: `!sats-to-fiat <amount> <currency>`,
/// the amount a whole number of satoshis.
pub open spec fn spec_sats_to_fiat(sender: Seq<char>, text: Seq<char>) -> ParseOutcomeView {
    let ts = tokens_of(text);
    if ts.len() < 3 || !valid_amount(ts[1]) {
        ParseOutcomeView::Refused(RecognitionError::Malformed)
    } else {
        ParseOutcomeView::Recognized(CommandView::SatsToFiat {
            sender,
            amount_sats: amount_of(ts[1]),
            currency: ts[2],
        })
    }
}

/// For every amount-bearing command text whose amount token is a
/// well-formed non-negative integer, the recognised command carries
/// exactly the integer the token denotes; a missing or malformed
/// amount is a recognition error (and, these being verified
/// functions, never a panic).
pub proof fn lemma_amount_parsed_exactly(sender: Seq<char>, text: Seq<char>, replyee: Seq<char>)
    ensures
        ({
            let ts = tokens_of(text);
            &&& (ts.len() >= 2 && valid_amount(ts[1]) ==> spec_tip(sender, text, replyee)
                == ParseOutcomeView::Recognized(
                CommandView::Tip {
                    sender,
                    amount: (digits_val(ts[1]) as u64),
                    memo: memo_from(ts, 2),
                    replyee,
                },
            ))
            &&& (ts.len() >= 3 && valid_amount(ts[1]) ==> spec_send(sender, text)
                == ParseOutcomeView::Recognized(
                CommandView::Send {
                    sender,
                    amount: (digits_val(ts[1]) as u64),
                    recipient: ts[2],
                    memo: memo_from(ts, 3),
                },
            ))
            &&& (ts.len() >= 2 && valid_amount(ts[1]) ==> spec_invoice(sender, text)
                == ParseOutcomeView::Recognized(
                CommandView::Invoice {
                    sender,
                    amount: (digits_val(ts[1]) as u64),
                    memo: memo_from(ts, 2),
                },
            ))
            &&& (ts.len() >= 2 && valid_amount(ts[1]) ==> spec_donate(sender, text)
                == ParseOutcomeView::Recognized(
                CommandView::Donate { sender, amount: (digits_val(ts[1]) as u64) },
            ))
            &&& (ts.len() < 2 || !valid_amount(ts[1]) ==> {
                &&& spec_tip(sender, text, replyee) == ParseOutcomeView::Refused(
                    RecognitionError::Malformed,
                )
                &&& spec_send(sender, text) == ParseOutcomeView::Refused(
                    RecognitionError::Malformed,
                )
                &&& spec_invoice(sender, text) == ParseOutcomeView::Refused(
                    RecognitionError::Malformed,
                )
                &&& spec_donate(sender, text) == ParseOutcomeView::Refused(
                    RecognitionError::Malformed,
                )
            })
        }),
{
}

/// Parses the arguments of a `!sats-to-fiat` command.
pub fn sats_to_fiat(sender: &str, text: &str) -> (r: Result<Command, RecognitionError>)
    ensures
        reflects(r, spec_sats_to_fiat(sender@, text@)),
{
    let ts = split_ws(text);
    if ts.len() < 3 {
        return Result::Err(RecognitionError::Malformed);
    }
    proof {
        assert(ts.deep_view()[1] == ts@[1]@);
        assert(ts.deep_view()[2] == ts@[2]@);
    }
    match parse_u64(ts[1].as_str()) {
        Option::Some(amount_sats) => {
            let currency = String::from_str(ts[2].as_str());
            Result::Ok(
                Command::SatsToFiat { sender: String::from_str(sender), amount_sats, currency },
            )
        },
        Option::None => Result::Err(RecognitionError::Malformed),
    }
}

} // verus!
