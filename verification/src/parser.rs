//! The canonical command recogniser: one keyword table, prefix-based,
//! first match wins, over the lower-cased last line of the message.
//!
//! Unmatched text yields `NoCommand`, not an error; a matched keyword
//! whose arguments do not fit its grammar is a recognition error; a
//! send whose recipient resolves to no unique identity is the distinct
//! "unresolved recipient" outcome.

use vstd::prelude::*;
use crate::commands::{
    amount_of, donate, help, invoice, memo_from, pay, spec_balance, spec_donate,
    spec_fiat_to_sats, spec_invoice, spec_pay, spec_sats_to_fiat, spec_tip, balance, fiat_to_sats,
    party, reflects, sats_to_fiat, tip, valid_amount, version, Command, CommandView,
    ParseOutcomeView, RecognitionError,
};
use crate::resolver::{resolve_recipient, spec_resolve, ResolutionView};
use crate::text::{
    join_tokens_from, last_line, last_line_of, parse_u64, split_ws, str_starts_with, tokens_of,
};
use crate::wrappers::{lower_of, lowercase};

verus! {

/// The view of an optional string slice.
pub open spec fn opt_view(o: Option<&str>) -> Option<Seq<char>> {
    match o {
        Option::Some(s) => Option::Some(s@),
        Option::None => Option::None,
    }
}

/// What a `!send` line recognises: the amount must be a well-formed
/// integer, and the recipient token must resolve; an unresolvable
/// recipient is the distinct unresolved outcome.
pub open spec fn spec_send_resolved(
    sender: Seq<char>,
    line: Seq<char>,
    ms: Seq<Seq<char>>,
    formatted: Option<Seq<char>>,
) -> ParseOutcomeView {
    let ts = tokens_of(line);
    if ts.len() < 3 || !valid_amount(ts[1]) {
        ParseOutcomeView::Refused(RecognitionError::Malformed)
    } else {
        match spec_resolve(ts[2], ms, formatted) {
            ResolutionView::External { address } => ParseOutcomeView::Recognized(
                CommandView::Send {
                    sender,
                    amount: amount_of(ts[1]),
                    recipient: address,
                    memo: memo_from(ts, 3),
                },
            ),
            ResolutionView::User { id } => ParseOutcomeView::Recognized(
                CommandView::Send {
                    sender,
                    amount: amount_of(ts[1]),
                    recipient: id,
                    memo: memo_from(ts, 3),
                },
            ),
            ResolutionView::Unresolved => ParseOutcomeView::Refused(
                RecognitionError::UnresolvedRecipient,
            ),
        }
    }
}

/// The whole recogniser over the lower-cased last line: the keyword
/// table, in order, first matching prefix wins; unmatched text is no
/// command.
pub open spec fn spec_extract(
    line: Seq<char>,
    sender: Seq<char>,
    reply_target: Option<Seq<char>>,
    ms: Seq<Seq<char>>,
    formatted: Option<Seq<char>>,
) -> ParseOutcomeView {
    if "!tip"@.is_prefix_of(line) {
        match reply_target {
            Option::Some(rt) => spec_tip(sender, line, rt),
            Option::None => ParseOutcomeView::Refused(RecognitionError::Malformed),
        }
    } else if "!balance"@.is_prefix_of(line) {
        spec_balance(sender)
    } else if "!send"@.is_prefix_of(line) {
        spec_send_resolved(sender, line, ms, formatted)
    } else if "!invoice"@.is_prefix_of(line) {
        spec_invoice(sender, line)
    } else if "!pay"@.is_prefix_of(line) {
        spec_pay(sender, line)
    } else if "!help"@.is_prefix_of(line) {
        ParseOutcomeView::Recognized(CommandView::Help)
    } else if "!donate"@.is_prefix_of(line) {
        spec_donate(sender, line)
    } else if "!party"@.is_prefix_of(line) {
        ParseOutcomeView::Recognized(CommandView::Party)
    } else if "!version"@.is_prefix_of(line) {
        ParseOutcomeView::Recognized(CommandView::Version)
    } else if "!fiat-to-sats"@.is_prefix_of(line) {
        spec_fiat_to_sats(sender, line)
    } else if "!sats-to-fiat"@.is_prefix_of(line) {
        spec_sats_to_fiat(sender, line)
    } else {
        ParseOutcomeView::Recognized(CommandView::NoCommand)
    }
}

/// Turns a message into a command: the body is lower-cased, its last
/// line matched against the keyword table, and for a send the
/// recipient is resolved against the room members and the rich-text
/// rendering before the command is constructed.
pub fn extract_command(
    msg_body: &str,
    sender: &str,
    reply_target: Option<&str>,
    members: &Vec<String>,
    formatted_msg_body: Option<&str>,
) -> (r: Result<Command, RecognitionError>)
    ensures
        reflects(
            r,
            spec_extract(
                last_line_of(lower_of(msg_body@)),
                sender@,
                opt_view(reply_target),
                members.deep_view(),
                opt_view(formatted_msg_body),
            ),
        ),
{
    let lowered = lowercase(msg_body);
    let line_string = last_line(lowered.as_str());
    let line = line_string.as_str();
    if str_starts_with(line, "!tip") {
        match reply_target {
            Option::Some(rt) => tip(sender, line, rt),
            Option::None => Result::Err(RecognitionError::Malformed),
        }
    } else if str_starts_with(line, "!balance") {
        balance(sender)
    } else if str_starts_with(line, "!send") {
        let ts = split_ws(line);
        if ts.len() < 3 {
            return Result::Err(RecognitionError::Malformed);
        }
        proof {
            assert(ts.deep_view()[1] == ts@[1]@);
            assert(ts.deep_view()[2] == ts@[2]@);
        }
        match parse_u64(ts[1].as_str()) {
            Option::None => Result::Err(RecognitionError::Malformed),
            Option::Some(amount) => {
                let memo = if ts.len() > 3 {
                    Option::Some(join_tokens_from(&ts, 3))
                } else {
                    Option::None
                };
                match resolve_recipient(ts[2].as_str(), members, formatted_msg_body) {
                    crate::resolver::Resolution::External { address } => Result::Ok(
                        Command::Send {
                            sender: String::from_str(sender),
                            amount,
                            recipient: address,
                            memo,
                        },
                    ),
                    crate::resolver::Resolution::User { id } => Result::Ok(
                        Command::Send {
                            sender: String::from_str(sender),
                            amount,
                            recipient: id,
                            memo,
                        },
                    ),
                    crate::resolver::Resolution::Unresolved => Result::Err(
                        RecognitionError::UnresolvedRecipient,
                    ),
                }
            },
        }
    } else if str_starts_with(line, "!invoice") {
        invoice(sender, line)
    } else if str_starts_with(line, "!pay") {
        pay(sender, line)
    } else if str_starts_with(line, "!help") {
        help()
    } else if str_starts_with(line, "!donate") {
        donate(sender, line)
    } else if str_starts_with(line, "!party") {
        party()
    } else if str_starts_with(line, "!version") {
        version()
    } else if str_starts_with(line, "!fiat-to-sats") {
        fiat_to_sats(sender, line)
    } else if str_starts_with(line, "!sats-to-fiat") {
        sats_to_fiat(sender, line)
    } else {
        Result::Ok(Command::NoCommand)
    }
}

/// A message body as the transport delivers it: the plain text and,
/// when the message was rendered, its HTML rendering.
#[derive(Debug)]
pub struct ExtractedMessageBody {
    pub msg_body: Option<String>,
    pub formatted_msg_body: Option<String>,
}

impl ExtractedMessageBody {
    pub fn new(msg_body: Option<String>, formatted_msg_body: Option<String>) -> (r:
        ExtractedMessageBody)
        ensures
            r.msg_body == msg_body,
            r.formatted_msg_body == formatted_msg_body,
    {
        ExtractedMessageBody { msg_body, formatted_msg_body }
    }

    /// A message with nothing to parse.
    pub fn empty() -> (r: ExtractedMessageBody)
        ensures
            r.msg_body is None,
            r.formatted_msg_body is None,
    {
        ExtractedMessageBody::new(Option::None, Option::None)
    }
}

impl RecognitionError {
    /// The user-facing hint for this recognition failure.
    pub fn user_hint(&self) -> (r: String)
        ensures
            (self == RecognitionError::Malformed ==> r@
                == "I did not understand that command. Please use '!help' to list the commands. Please write usernames in plain text"@),
            (self == RecognitionError::UnresolvedRecipient ==> r@
                == "Please use <amount> <username>.\n If usernames are ambiguous write them out in full. I.e. like @username:example-server.com."@),
    {
        match self {
            RecognitionError::Malformed => String::from_str(
                "I did not understand that command. Please use '!help' to list the commands. Please write usernames in plain text",
            ),
            RecognitionError::UnresolvedRecipient => String::from_str(
                "Please use <amount> <username>.\n If usernames are ambiguous write them out in full. I.e. like @username:example-server.com.",
            ),
        }
    }
}

} // verus!
