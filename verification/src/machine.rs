//! The payment orchestrator: a state machine that turns a recognised
//! command into the sequence of external calls it needs.
//!
//! The machine never performs an external call itself. Starting it
//! (`processing_command`) and feeding it the outcome of the requested
//! call (`step`) each return the next state and the next requested
//! action; the application shell performs the action (a wallet API
//! call, a store access, an address lookup, a rate fetch) and hands
//! the outcome back as a plain-valued event. `Finish` and `Fail` are
//! the terminal actions: a reply to deliver, or a failure whose cause
//! is logged and reported generically. A terminal machine accepts no
//! further events, so a failed flow performs no further calls.

use vstd::prelude::*;
use crate::commands::{Command, CommandReply};
use crate::config::Config;
use crate::fiat::{convert_fiat_to_sats, convert_sats_to_fiat, fiat_to_sats_spec, sats_to_fiat_spec};
use crate::lnbits::{CreateUserArgs, InvoiceParams, LNBitsClient, LNBitsUser, PaymentParams, Wallet};
use crate::models::NewMatrixId2LNBitsId;
use crate::msat_balance_to_sats;
use crate::replies::{
    balance_reply, build_balance_reply, build_donation_memo, build_fiat_to_sats_reply,
    build_help_text, build_paid_reply, build_sats_to_fiat_reply, build_sent_reply, donation_memo,
    fiat_to_sats_reply, help_text, paid_reply, sats_to_fiat_reply, sent_reply, version_text,
};
use crate::resolver::{is_external_address, parse_lnurl};
use crate::wrappers::{bolt11_amount, bolt11_amount_of, fresh_uuid, now_timestamp, qr_png, qr_png_of};

verus! {

/// Which reply a finished payment owes.
#[derive(Debug)]
pub enum DoneReply {
    /// A plain `!pay` went through.
    Paid { sender: String },
    /// A send or tip went through.
    Sent { sender: String, amount: u64, recipient: String, memo: Option<String> },
    /// A donation went through.
    Donated,
}

pub ghost enum DoneReplyView {
    Paid { sender: Seq<char> },
    Sent { sender: Seq<char>, amount: u64, recipient: Seq<char>, memo: Option<Seq<char>> },
    Donated,
}

impl View for DoneReply {
    type V = DoneReplyView;

    open spec fn view(&self) -> DoneReplyView {
        match self {
            DoneReply::Paid { sender } => DoneReplyView::Paid { sender: sender@ },
            DoneReply::Sent { sender, amount, recipient, memo } => DoneReplyView::Sent {
                sender: sender@,
                amount: *amount,
                recipient: recipient@,
                memo: crate::commands::opt_str_view(*memo),
            },
            DoneReply::Donated => DoneReplyView::Donated,
        }
    }
}

/// The text that a finished payment's reply carries.
pub open spec fn done_reply_text(d: DoneReplyView) -> Seq<char> {
    match d {
        DoneReplyView::Paid { sender } => paid_reply(sender),
        DoneReplyView::Sent { sender, amount, recipient, memo } => sent_reply(
            sender,
            amount,
            recipient,
            memo,
        ),
        DoneReplyView::Donated => "Thanks for the donation"@,
    }
}

/// What follows once an invoice has been created.
#[derive(Debug)]
pub enum AfterInvoice {
    /// Reply with the payment request and its QR rendering.
    ReplyWithQr,
    /// Pay the fresh invoice from `payer`'s wallet.
    ThenPay { payer: String, done: DoneReply },
}

/// Why a wallet is being fetched.
#[derive(Debug)]
pub enum Purpose {
    /// Report the balance.
    ReadBalance,
    /// Create an invoice over `amount` satoshis.
    IssueInvoice { amount: u64, memo: Option<String>, after: AfterInvoice },
    /// Pay the given payment request with the wallet's spend key.
    PayBolt11 { bolt11: String, done: DoneReply },
}

/// Where a wallet-provisioning sub-flow stands.
#[derive(Debug)]
pub enum ProvisionStep {
    /// Waiting to hear whether a mapping exists.
    CheckSent,
    /// Waiting for the user/wallet creation call.
    CreateSent,
    /// Waiting for the fresh mapping to be persisted.
    StoreSent,
    /// Waiting for the stored wallet identifier.
    LookupSent,
}

/// The orchestrator's state between external calls.
#[derive(Debug)]
pub enum Phase {
    /// Ensuring `who` has a wallet, then proceeding with `purpose`.
    Provision { who: String, step: ProvisionStep, purpose: Purpose },
    /// Waiting for `who`'s wallet list; exactly one wallet is owed.
    AwaitWallets { who: String, purpose: Purpose },
    /// Waiting for wallet details to report a balance.
    AwaitInfo,
    /// Waiting for a fresh invoice.
    AwaitInvoice { after: AfterInvoice },
    /// Waiting for the payment call to come back.
    AwaitPayment { done: DoneReply },
    /// Waiting for an external address's pay parameters.
    AwaitLnurlParams {
        payer: String,
        address: String,
        amount: u64,
        memo: Option<String>,
        done: DoneReply,
    },
    /// Waiting for the invoice the external address issued.
    AwaitLnurlInvoice { payer: String, done: DoneReply },
    /// Waiting for an exchange rate.
    AwaitRate { amount: u64, currency: String, to_sats: bool },
    /// Finished: the reply went out with the `Finish` action.
    Done,
    /// Failed: the cause went out with the `Fail` action.
    Failed,
}

impl Phase {
    /// A terminal machine accepts no further events.
    pub open spec fn spec_is_terminal(&self) -> bool {
        self is Done || self is Failed
    }

    /// Whether the flow has ended.
    #[verifier::when_used_as_spec(spec_is_terminal)]
    pub fn is_terminal(&self) -> (r: bool)
        ensures
            r == self.spec_is_terminal(),
    {
        match self {
            Phase::Done => true,
            Phase::Failed => true,
            _ => false,
        }
    }
}

/// What the orchestrator asks the application shell to do next.
#[derive(Debug)]
#[allow(inconsistent_fields)]
pub enum Action {
    /// Ask the mapping store whether this chat identity has a wallet.
    CheckMapping { matrix_id: String },
    /// Create a wallet user for this identity.
    CreateUser { args: CreateUserArgs },
    /// Persist the fresh mapping.
    StoreMapping { mapping: NewMatrixId2LNBitsId },
    /// Load the stored wallet identifier.
    LookupMapping { matrix_id: String },
    /// List this user's wallets.
    ListWallets { user: LNBitsUser },
    /// Fetch wallet details.
    GetWalletInfo { wallet: Wallet },
    /// Create an invoice on this wallet.
    CreateInvoice { wallet: Wallet, params: InvoiceParams },
    /// Pay with this wallet's spend key.
    PayInvoice { wallet: Wallet, params: PaymentParams },
    /// Fetch the pay parameters of an external payment address.
    FetchLnurlParams { address: String },
    /// Ask the external address for an invoice over this amount.
    FetchLnurlInvoice { address: String, amount_msat: u64, comment: Option<String> },
    /// Fetch the bitcoin price in this currency.
    FetchRate { currency: String },
    /// Deliver the reply: the flow is complete.
    Finish { reply: CommandReply },
    /// Report failure: the cause is logged, the user told generically.
    Fail { message: String },
}

/// What the performed action came back with, as plain values.
#[derive(Debug)]
pub enum Event {
    MappingExists { exists: bool },
    UserCreated { lnbits_id: String, admin_id: String },
    MappingStored,
    /// The store's uniqueness constraint found a mapping already
    /// present: a concurrent first use won the race; its mapping is
    /// the one to load.
    MappingConflict,
    MappingFound { lnbits_id: String },
    WalletList { wallets: Vec<Wallet> },
    WalletInfoReceived { balance: Option<u64> },
    InvoiceCreated { payment_request: String },
    PaymentSent,
    LnurlParams { is_pay: bool },
    LnurlInvoice { invoice: String },
    Rate { rate_cents: u64 },
    /// The call failed; the message is the cause to log.
    CallFailed { message: String },
}

/// The outcome `r` failed with cause `msg`.
pub open spec fn fails_with(r: (Phase, Action), msg: Seq<char>) -> bool {
    &&& r.0 is Failed
    &&& r.1 matches Action::Fail { message } && message@ == msg
}

/// The outcome `r` finished with a text-only reply `text`.
pub open spec fn finishes_text(r: (Phase, Action), text: Seq<char>) -> bool {
    &&& r.0 is Done
    &&& r.1 matches Action::Finish { reply } && reply@.text == Option::Some(text)
        && reply@.image is None
}

/// The outcome `r` begins paying `bolt11` from `payer`'s wallet: an
/// unparseable invoice fails at once; an invoice without an amount
/// fails with "Incorrect invoice" and no payment call is ever made;
/// otherwise the payer's wallet is provisioned with the payment as
/// its purpose.
pub open spec fn starts_pay_flow(
    r: (Phase, Action),
    payer: Seq<char>,
    bolt11: Seq<char>,
    done: DoneReplyView,
) -> bool {
    match bolt11_amount_of(bolt11) {
        Option::None => fails_with(r, "Invalid invoice"@),
        Option::Some(Option::None) => fails_with(r, "Incorrect invoice"@),
        Option::Some(Option::Some(_)) => {
            &&& r.0 matches Phase::Provision { who, step, purpose } && who@ == payer && step
                is CheckSent && (purpose matches Purpose::PayBolt11 { bolt11: b, done: d } && b@
                == bolt11 && d@ == done)
            &&& r.1 matches Action::CheckMapping { matrix_id } && matrix_id@ == payer
        },
    }
}

/// Checks the payment request and, when it carries an amount, starts
/// provisioning the payer's wallet to pay it.
fn begin_pay(payer: String, bolt11: String, done: DoneReply) -> (r: (Phase, Action))
    ensures
        starts_pay_flow(r, payer@, bolt11@, done@),
{
    match bolt11_amount(bolt11.as_str()) {
        Option::None => (
            Phase::Failed,
            Action::Fail { message: String::from_str("Invalid invoice") },
        ),
        Option::Some(Option::None) => (
            Phase::Failed,
            Action::Fail { message: String::from_str("Incorrect invoice") },
        ),
        Option::Some(Option::Some(_)) => {
            let matrix_id = String::from_str(payer.as_str());
            (
                Phase::Provision {
                    who: payer,
                    step: ProvisionStep::CheckSent,
                    purpose: Purpose::PayBolt11 { bolt11, done },
                },
                Action::CheckMapping { matrix_id },
            )
        },
    }
}

/// An invoice that carries no amount is refused outright: the flow
/// fails with "Incorrect invoice" in a terminal state, so no wallet
/// call and no payment call is ever requested for it.
pub proof fn lemma_amountless_invoice_never_pays(
    r: (Phase, Action),
    payer: Seq<char>,
    bolt11: Seq<char>,
    done: DoneReplyView,
)
    requires
        starts_pay_flow(r, payer, bolt11, done),
        bolt11_amount_of(bolt11) matches Option::Some(a) && a is None,
    ensures
        fails_with(r, "Incorrect invoice"@),
        r.0.spec_is_terminal(),
{
}

/// The outcome `r` starts a send of `amount` satoshis from `sender`
/// to `recipient`: an external payment address goes through the
/// address protocol, anything else through invoice-then-pay on the
/// recipient's wallet.
pub open spec fn starts_send(
    r: (Phase, Action),
    sender: Seq<char>,
    recipient: Seq<char>,
    amount: u64,
    memo: Option<Seq<char>>,
    done: DoneReplyView,
) -> bool {
    if is_external_address(recipient) {
        &&& r.0 matches Phase::AwaitLnurlParams {
            payer,
            address,
            amount: a,
            memo: m,
            done: d,
        } && payer@ == sender && address@ == recipient && a == amount
            && crate::commands::opt_str_view(m) == memo && d@ == done
        &&& r.1 matches Action::FetchLnurlParams { address: a2 } && a2@ == recipient
    } else {
        &&& r.0 matches Phase::Provision { who, step, purpose } && who@ == recipient && step
            is CheckSent && (purpose matches Purpose::IssueInvoice { amount: a, memo: m, after }
            && a == amount && crate::commands::opt_str_view(m) == memo && (after
            matches AfterInvoice::ThenPay { payer, done: d } && payer@ == sender && d@ == done))
        &&& r.1 matches Action::CheckMapping { matrix_id } && matrix_id@ == recipient
    }
}

/// Routes a send either through the external-address protocol or
/// through invoice-then-pay between the two wallets.
fn start_send(sender: String, recipient: String, amount: u64, memo: Option<String>, done:
    DoneReply) -> (r: (Phase, Action))
    ensures
        starts_send(r, sender@, recipient@, amount, crate::commands::opt_str_view(memo), done@),
{
    if parse_lnurl(recipient.as_str()) {
        let address2 = String::from_str(recipient.as_str());
        (
            Phase::AwaitLnurlParams { payer: sender, address: recipient, amount, memo, done },
            Action::FetchLnurlParams { address: address2 },
        )
    } else {
        let matrix_id = String::from_str(recipient.as_str());
        (
            Phase::Provision {
                who: recipient,
                step: ProvisionStep::CheckSent,
                purpose: Purpose::IssueInvoice {
                    amount,
                    memo,
                    after: AfterInvoice::ThenPay { payer: sender, done },
                },
            },
            Action::CheckMapping { matrix_id },
        )
    }
}

/// Whether the event is the one the phase is waiting for.
pub open spec fn expected_event(phase: Phase, event: Event) -> bool {
    match phase {
        Phase::Provision { step: ps, .. } => match ps {
            ProvisionStep::CheckSent => event matches Event::MappingExists { .. },
            ProvisionStep::CreateSent => event matches Event::UserCreated { .. },
            ProvisionStep::StoreSent => event matches Event::MappingStored || event
                matches Event::MappingConflict,
            ProvisionStep::LookupSent => event matches Event::MappingFound { .. },
        },
        Phase::AwaitWallets { .. } => event matches Event::WalletList { .. },
        Phase::AwaitInfo => event matches Event::WalletInfoReceived { .. },
        Phase::AwaitInvoice { .. } => event matches Event::InvoiceCreated { .. },
        Phase::AwaitPayment { .. } => event matches Event::PaymentSent,
        Phase::AwaitLnurlParams { .. } => event matches Event::LnurlParams { .. },
        Phase::AwaitLnurlInvoice { .. } => event matches Event::LnurlInvoice { .. },
        Phase::AwaitRate { .. } => event matches Event::Rate { .. },
        Phase::Done => false,
        Phase::Failed => false,
    }
}

/// One transition of the orchestrator: the outcome of the performed
/// call decides the next state and the next requested action. A
/// failed call fails the flow with its cause; an event the phase was
/// not waiting for fails it as a protocol error.
pub fn step(phase: Phase, event: Event) -> (r: (Phase, Action))
    requires
        !phase.spec_is_terminal(),
    ensures
        (event matches Event::CallFailed { message } ==> fails_with(r, message@)),
        (!(event matches Event::CallFailed { .. }) && !expected_event(phase, event)
            ==> fails_with(r, "Unexpected response"@)),
        (match phase {
            Phase::Provision { who, step: ps, purpose } => match ps {
                ProvisionStep::CheckSent => (event matches Event::MappingExists { exists } ==> (
                if exists {
                    &&& r.0 matches Phase::Provision { who: w2, step: s2, purpose: p2 } && w2
                        == who && s2 is LookupSent && p2 == purpose
                    &&& r.1 matches Action::LookupMapping { matrix_id } && matrix_id@ == who@
                } else {
                    &&& r.0 matches Phase::Provision { who: w2, step: s2, purpose: p2 } && w2
                        == who && s2 is CreateSent && p2 == purpose
                    &&& r.1 matches Action::CreateUser { args } && args.wallet_name@ == who@
                        + "wallet"@ && args.admin_id@.len() == 36 && args.user_name@ == who@
                        && args.email@.len() == 0 && args.password@.len() == 0
                })),
                ProvisionStep::CreateSent => (event matches Event::UserCreated {
                    lnbits_id,
                    admin_id,
                } ==> {
                    &&& r.0 matches Phase::Provision { who: w2, step: s2, purpose: p2 } && w2
                        == who && s2 is StoreSent && p2 == purpose
                    &&& r.1 matches Action::StoreMapping { mapping } && mapping.matrix_id@
                        == who@ && mapping.lnbits_id@ == lnbits_id@ && mapping.lnbits_admin@
                        == admin_id@
                }),
                ProvisionStep::StoreSent => ((event matches Event::MappingStored || event
                    matches Event::MappingConflict) ==> {
                    &&& r.0 matches Phase::Provision { who: w2, step: s2, purpose: p2 } && w2
                        == who && s2 is LookupSent && p2 == purpose
                    &&& r.1 matches Action::LookupMapping { matrix_id } && matrix_id@ == who@
                }),
                ProvisionStep::LookupSent => (event matches Event::MappingFound { lnbits_id }
                    ==> {
                    &&& r.0 matches Phase::AwaitWallets { who: w2, purpose: p2 } && w2 == who
                        && p2 == purpose
                    &&& r.1 matches Action::ListWallets { user } && user.id@ == lnbits_id@
                        && user.admin@ == lnbits_id@
                }),
            },
            Phase::AwaitWallets { who, purpose } => (event matches Event::WalletList { wallets }
                ==> (if wallets@.len() != 1 {
                fails_with(r, "Expected a single wallet"@)
            } else {
                match purpose {
                    Purpose::ReadBalance => {
                        &&& r.0 is AwaitInfo
                        &&& r.1 matches Action::GetWalletInfo { wallet } && wallet == wallets@[0]
                    },
                    Purpose::IssueInvoice { amount, memo, after } => if amount > i64::MAX {
                        fails_with(r, "Amount too large"@)
                    } else {
                        &&& r.0 matches Phase::AwaitInvoice { after: a2 } && a2 == after
                        &&& r.1 matches Action::CreateInvoice { wallet, params } && wallet
                            == wallets@[0] && params.out == false && params.amount == amount as i64
                            && (match memo {
                            Option::Some(m) => params.memo matches Option::Some(pm) && pm@ == m@,
                            Option::None => params.memo matches Option::Some(pm) && pm@.len()
                                == 36,
                        })
                    },
                    Purpose::PayBolt11 { bolt11, done } => {
                        &&& r.0 matches Phase::AwaitPayment { done: d2 } && d2 == done
                        &&& r.1 matches Action::PayInvoice { wallet, params } && wallet
                            == wallets@[0] && params.out == true && params.bolt11@ == bolt11@
                    },
                }
            })),
            Phase::AwaitInfo => (event matches Event::WalletInfoReceived { balance }
                ==> finishes_text(
                r,
                balance_reply(
                    match balance {
                        Option::Some(b) => b / 1000,
                        Option::None => 0u64,
                    },
                ),
            )),
            Phase::AwaitInvoice { after } => (event matches Event::InvoiceCreated {
                payment_request,
            } ==> match after {
                AfterInvoice::ReplyWithQr => match qr_png_of(payment_request@) {
                    Option::Some(png) => {
                        &&& r.0 is Done
                        &&& r.1 matches Action::Finish { reply } && reply@.text == Option::Some(
                            payment_request@,
                        ) && reply@.image == Option::Some(png)
                    },
                    Option::None => fails_with(r, "Could not generate QR code"@),
                },
                AfterInvoice::ThenPay { payer, done } => starts_pay_flow(
                    r,
                    payer@,
                    payment_request@,
                    done@,
                ),
            }),
            Phase::AwaitPayment { done } => (event matches Event::PaymentSent ==> finishes_text(
                r,
                done_reply_text(done@),
            )),
            Phase::AwaitLnurlParams { payer, address, amount, memo, done } => (event
                matches Event::LnurlParams { is_pay } ==> (if !is_pay {
                fails_with(r, "Invalid LNURL"@)
            } else if amount > u64::MAX / 1000 {
                fails_with(r, "Amount too large"@)
            } else {
                &&& r.0 matches Phase::AwaitLnurlInvoice { payer: p2, done: d2 } && p2 == payer
                    && d2 == done
                &&& r.1 matches Action::FetchLnurlInvoice { address: a2, amount_msat, comment }
                    && a2@ == address@ && amount_msat == amount * 1000 && comment == memo
            })),
            Phase::AwaitLnurlInvoice { payer, done } => (event matches Event::LnurlInvoice {
                invoice,
            } ==> starts_pay_flow(r, payer@, invoice@, done@)),
            Phase::AwaitRate { amount, currency, to_sats } => (event matches Event::Rate {
                rate_cents,
            } ==> (if rate_cents == 0 {
                fails_with(r, "Invalid conversion rate"@)
            } else if to_sats {
                if fiat_to_sats_spec(amount as nat, rate_cents as nat) > u64::MAX {
                    fails_with(r, "Conversion result too large"@)
                } else {
                    finishes_text(
                        r,
                        fiat_to_sats_reply(
                            amount,
                            currency@,
                            fiat_to_sats_spec(amount as nat, rate_cents as nat) as u64,
                        ),
                    )
                }
            } else {
                if sats_to_fiat_spec(amount as nat, rate_cents as nat) > u64::MAX {
                    fails_with(r, "Conversion result too large"@)
                } else {
                    finishes_text(
                        r,
                        sats_to_fiat_reply(
                            amount,
                            currency@,
                            sats_to_fiat_spec(amount as nat, rate_cents as nat) as u64,
                        ),
                    )
                }
            })),
            Phase::Done => true,
            Phase::Failed => true,
        }),
{
    match (phase, event) {
        (_, Event::CallFailed { message }) => (Phase::Failed, Action::Fail { message }),
        (
            Phase::Provision { who, step: ProvisionStep::CheckSent, purpose },
            Event::MappingExists { exists },
        ) => {
            if exists {
                let matrix_id = String::from_str(who.as_str());
                (
                    Phase::Provision { who, step: ProvisionStep::LookupSent, purpose },
                    Action::LookupMapping { matrix_id },
                )
            } else {
                let admin_id = fresh_uuid();
                let mut wallet_name = String::from_str(who.as_str());
                wallet_name.append("wallet");
                let args = CreateUserArgs::new(
                    wallet_name.as_str(),
                    admin_id.as_str(),
                    who.as_str(),
                    "",
                    "",
                );
                proof {
                    reveal_strlit("");
                }
                (
                    Phase::Provision { who, step: ProvisionStep::CreateSent, purpose },
                    Action::CreateUser { args },
                )
            }
        },
        (
            Phase::Provision { who, step: ProvisionStep::CreateSent, purpose },
            Event::UserCreated { lnbits_id, admin_id },
        ) => {
            let stamp = now_timestamp();
            let mapping = NewMatrixId2LNBitsId::new(
                who.as_str(),
                lnbits_id.as_str(),
                admin_id.as_str(),
                stamp.as_str(),
            );
            (
                Phase::Provision { who, step: ProvisionStep::StoreSent, purpose },
                Action::StoreMapping { mapping },
            )
        },
        (
            Phase::Provision { who, step: ProvisionStep::StoreSent, purpose },
            Event::MappingStored,
        ) => {
            let matrix_id = String::from_str(who.as_str());
            (
                Phase::Provision { who, step: ProvisionStep::LookupSent, purpose },
                Action::LookupMapping { matrix_id },
            )
        },
        (
            Phase::Provision { who, step: ProvisionStep::StoreSent, purpose },
            Event::MappingConflict,
        ) => {
            let matrix_id = String::from_str(who.as_str());
            (
                Phase::Provision { who, step: ProvisionStep::LookupSent, purpose },
                Action::LookupMapping { matrix_id },
            )
        },
        (
            Phase::Provision { who, step: ProvisionStep::LookupSent, purpose },
            Event::MappingFound { lnbits_id },
        ) => {
            let user = LNBitsUser::from_id(lnbits_id.as_str());
            (Phase::AwaitWallets { who, purpose }, Action::ListWallets { user })
        },
        (Phase::AwaitWallets { who: _, purpose }, Event::WalletList { wallets }) => {
            if wallets.len() != 1 {
                (
                    Phase::Failed,
                    Action::Fail { message: String::from_str("Expected a single wallet") },
                )
            } else {
                let mut ws = wallets;
                let w = ws.remove(0);
                match purpose {
                    Purpose::ReadBalance => (
                        Phase::AwaitInfo,
                        Action::GetWalletInfo { wallet: w },
                    ),
                    Purpose::IssueInvoice { amount, memo, after } => {
                        if amount > i64::MAX as u64 {
                            (
                                Phase::Failed,
                                Action::Fail { message: String::from_str("Amount too large") },
                            )
                        } else {
                            let params = InvoiceParams::simple_new(amount, &memo);
                            (
                                Phase::AwaitInvoice { after },
                                Action::CreateInvoice { wallet: w, params },
                            )
                        }
                    },
                    Purpose::PayBolt11 { bolt11, done } => {
                        let params = PaymentParams::new(true, bolt11.as_str());
                        (
                            Phase::AwaitPayment { done },
                            Action::PayInvoice { wallet: w, params },
                        )
                    },
                }
            }
        },
        (Phase::AwaitInfo, Event::WalletInfoReceived { balance }) => {
            let sats = msat_balance_to_sats(balance);
            let text = build_balance_reply(sats);
            (Phase::Done, Action::Finish { reply: CommandReply::text_only(text.as_str()) })
        },
        (
            Phase::AwaitInvoice { after: AfterInvoice::ReplyWithQr },
            Event::InvoiceCreated { payment_request },
        ) => {
            match qr_png(payment_request.as_str()) {
                Option::Some(png) => (
                    Phase::Done,
                    Action::Finish { reply: CommandReply::new(payment_request.as_str(), png) },
                ),
                Option::None => (
                    Phase::Failed,
                    Action::Fail { message: String::from_str("Could not generate QR code") },
                ),
            }
        },
        (
            Phase::AwaitInvoice { after: AfterInvoice::ThenPay { payer, done } },
            Event::InvoiceCreated { payment_request },
        ) => begin_pay(payer, payment_request, done),
        (Phase::AwaitPayment { done }, Event::PaymentSent) => {
            let text = match &done {
                DoneReply::Paid { sender } => build_paid_reply(sender.as_str()),
                DoneReply::Sent { sender, amount, recipient, memo } => build_sent_reply(
                    sender.as_str(),
                    *amount,
                    recipient.as_str(),
                    memo,
                ),
                DoneReply::Donated => String::from_str("Thanks for the donation"),
            };
            (Phase::Done, Action::Finish { reply: CommandReply::text_only(text.as_str()) })
        },
        (
            Phase::AwaitLnurlParams { payer, address, amount, memo, done },
            Event::LnurlParams { is_pay },
        ) => {
            if !is_pay {
                (Phase::Failed, Action::Fail { message: String::from_str("Invalid LNURL") })
            } else if amount > u64::MAX / 1000 {
                (Phase::Failed, Action::Fail { message: String::from_str("Amount too large") })
            } else {
                proof {
                    crate::text::lemma_scale_add(amount, 0, 1000);
                }
                (
                    Phase::AwaitLnurlInvoice { payer, done },
                    Action::FetchLnurlInvoice {
                        address,
                        amount_msat: amount * 1000,
                        comment: memo,
                    },
                )
            }
        },
        (Phase::AwaitLnurlInvoice { payer, done }, Event::LnurlInvoice { invoice }) => begin_pay(
            payer,
            invoice,
            done,
        ),
        (Phase::AwaitRate { amount, currency, to_sats }, Event::Rate { rate_cents }) => {
            if rate_cents == 0 {
                (
                    Phase::Failed,
                    Action::Fail { message: String::from_str("Invalid conversion rate") },
                )
            } else if to_sats {
                match convert_fiat_to_sats(amount, rate_cents) {
                    Option::Some(sats) => {
                        let text = build_fiat_to_sats_reply(amount, currency.as_str(), sats);
                        (
                            Phase::Done,
                            Action::Finish { reply: CommandReply::text_only(text.as_str()) },
                        )
                    },
                    Option::None => (
                        Phase::Failed,
                        Action::Fail {
                            message: String::from_str("Conversion result too large"),
                        },
                    ),
                }
            } else {
                match convert_sats_to_fiat(amount, rate_cents) {
                    Option::Some(fiat_cents) => {
                        let text = build_sats_to_fiat_reply(
                            amount,
                            currency.as_str(),
                            fiat_cents,
                        );
                        (
                            Phase::Done,
                            Action::Finish { reply: CommandReply::text_only(text.as_str()) },
                        )
                    },
                    Option::None => (
                        Phase::Failed,
                        Action::Fail {
                            message: String::from_str("Conversion result too large"),
                        },
                    ),
                }
            }
        },
        (_, _) => (
            Phase::Failed,
            Action::Fail { message: String::from_str("Unexpected response") },
        ),
    }
}

/// Copies an optional string.
fn clone_opt_string(o: &Option<String>) -> (r: Option<String>)
    ensures
        crate::commands::opt_str_view(r) == crate::commands::opt_str_view(*o),
{
    match o {
        Option::Some(m) => Option::Some(String::from_str(m.as_str())),
        Option::None => Option::None,
    }
}

/// The agent's short name: the part of the server string before the
/// first colon, without its leading character.
pub open spec fn spec_bot_name(server: Seq<char>) -> Seq<char> {
    let head = server.subrange(0, crate::text::first_char_at(server, ':', 0));
    if head.len() < 1 {
        Seq::<char>::empty()
    } else {
        head.subrange(1, head.len() as int)
    }
}

/// The context a command is processed in: the wallet service client
/// and the configuration.
pub struct BusinessLogicContext {
    pub lnbits_client: LNBitsClient,
    pub config: Config,
}

impl BusinessLogicContext {
    pub fn new(lnbits_client: LNBitsClient, config: Config) -> (r: BusinessLogicContext)
        ensures
            r.lnbits_client == lnbits_client,
            r.config == config,
    {
        BusinessLogicContext { lnbits_client, config }
    }

    /// The help text, with this agent's donation address.
    pub fn get_help_content(&self) -> (r: String)
        ensures
            r@ == help_text(self.config.btc_donation_address@),
    {
        build_help_text(self.config.btc_donation_address.as_str())
    }

    /// The name this agent answers to, read from the configured
    /// server: the first colon-separated part of the server string,
    /// with its leading character dropped; an empty part gives an
    /// empty name.
    pub fn bot_name(&self) -> (r: String)
        ensures
            r@ == spec_bot_name(self.config.matrix_server@),
    {
        let server = self.config.matrix_server.as_str();
        let colon = crate::text::find_char(server, ':');
        proof {
            crate::text::lemma_first_char_at(server@, ':', 0);
        }
        let head = server.substring_char(0, colon);
        if head.unicode_len() < 1 {
            String::new()
        } else {
            let n = head.unicode_len();
            String::from_str(head.substring_char(1, n))
        }
    }

    /// Starts the orchestration of one command: the initial state and
    /// the first requested action. Commands that need no external
    /// call finish at once.
    pub fn processing_command(&self, command: Command) -> (r: (Phase, Action))
        ensures
            (match command {
                Command::Tip { sender, amount, memo, replyee } => starts_send(
                    r,
                    sender@,
                    replyee@,
                    amount,
                    crate::commands::opt_str_view(memo),
                    DoneReplyView::Sent {
                        sender: sender@,
                        amount,
                        recipient: replyee@,
                        memo: crate::commands::opt_str_view(memo),
                    },
                ),
                Command::Send { sender, amount, recipient, memo } => starts_send(
                    r,
                    sender@,
                    recipient@,
                    amount,
                    crate::commands::opt_str_view(memo),
                    DoneReplyView::Sent {
                        sender: sender@,
                        amount,
                        recipient: recipient@,
                        memo: crate::commands::opt_str_view(memo),
                    },
                ),
                Command::Balance { sender } => {
                    &&& r.0 matches Phase::Provision { who, step, purpose } && who == sender
                        && step is CheckSent && purpose is ReadBalance
                    &&& r.1 matches Action::CheckMapping { matrix_id } && matrix_id@ == sender@
                },
                Command::Invoice { sender, amount, memo } => {
                    &&& r.0 matches Phase::Provision { who, step, purpose } && who == sender
                        && step is CheckSent && (purpose matches Purpose::IssueInvoice {
                        amount: a,
                        memo: m,
                        after,
                    } && a == amount && m == memo && after is ReplyWithQr)
                    &&& r.1 matches Action::CheckMapping { matrix_id } && matrix_id@ == sender@
                },
                Command::Pay { sender, invoice } => starts_pay_flow(
                    r,
                    sender@,
                    invoice@,
                    DoneReplyView::Paid { sender: sender@ },
                ),
                Command::Help {  } => finishes_text(
                    r,
                    help_text(self.config.btc_donation_address@),
                ),
                Command::Donate { sender, amount } => (match self.config.donate_user {
                    Option::None => finishes_text(
                        r,
                        "Thanks but this agent does not accept donations"@,
                    ),
                    Option::Some(du) => starts_send(
                        r,
                        sender@,
                        du@,
                        amount,
                        Option::Some(donation_memo(sender@)),
                        DoneReplyView::Donated,
                    ),
                }),
                Command::Party {  } => finishes_text(r, "🎉🎊🥳 let's PARTY!! 🥳🎊🎉"@),
                Command::Version {  } => finishes_text(r, version_text()),
                Command::FiatToSats { sender, amount_cents, currency } => {
                    &&& r.0 matches Phase::AwaitRate { amount, currency: c2, to_sats } && amount
                        == amount_cents && c2 == currency && to_sats
                    &&& r.1 matches Action::FetchRate { currency: c3 } && c3@ == currency@
                },
                Command::SatsToFiat { sender, amount_sats, currency } => {
                    &&& r.0 matches Phase::AwaitRate { amount, currency: c2, to_sats } && amount
                        == amount_sats && c2 == currency && !to_sats
                    &&& r.1 matches Action::FetchRate { currency: c3 } && c3@ == currency@
                },
                Command::NoCommand => fails_with(r, "Unsupported command"@),
            }),
    {
        match command {
            Command::Tip { sender, amount, memo, replyee } => {
                let done = DoneReply::Sent {
                    sender: String::from_str(sender.as_str()),
                    amount,
                    recipient: String::from_str(replyee.as_str()),
                    memo: clone_opt_string(&memo),
                };
                start_send(sender, replyee, amount, memo, done)
            },
            Command::Send { sender, amount, recipient, memo } => {
                let done = DoneReply::Sent {
                    sender: String::from_str(sender.as_str()),
                    amount,
                    recipient: String::from_str(recipient.as_str()),
                    memo: clone_opt_string(&memo),
                };
                start_send(sender, recipient, amount, memo, done)
            },
            Command::Balance { sender } => {
                let matrix_id = String::from_str(sender.as_str());
                (
                    Phase::Provision {
                        who: sender,
                        step: ProvisionStep::CheckSent,
                        purpose: Purpose::ReadBalance,
                    },
                    Action::CheckMapping { matrix_id },
                )
            },
            Command::Invoice { sender, amount, memo } => {
                let matrix_id = String::from_str(sender.as_str());
                (
                    Phase::Provision {
                        who: sender,
                        step: ProvisionStep::CheckSent,
                        purpose: Purpose::IssueInvoice {
                            amount,
                            memo,
                            after: AfterInvoice::ReplyWithQr,
                        },
                    },
                    Action::CheckMapping { matrix_id },
                )
            },
            Command::Pay { sender, invoice } => {
                let done = DoneReply::Paid { sender: String::from_str(sender.as_str()) };
                begin_pay(sender, invoice, done)
            },
            Command::Help {  } => {
                let text = self.get_help_content();
                (Phase::Done, Action::Finish { reply: CommandReply::text_only(text.as_str()) })
            },
            Command::Donate { sender, amount } => {
                match &self.config.donate_user {
                    Option::None => (
                        Phase::Done,
                        Action::Finish {
                            reply: CommandReply::text_only(
                                "Thanks but this agent does not accept donations",
                            ),
                        },
                    ),
                    Option::Some(du) => {
                        let recipient = String::from_str(du.as_str());
                        let memo = Option::Some(build_donation_memo(sender.as_str()));
                        start_send(sender, recipient, amount, memo, DoneReply::Donated)
                    },
                }
            },
            Command::Party {  } => (
                Phase::Done,
                Action::Finish {
                    reply: CommandReply::text_only("🎉🎊🥳 let's PARTY!! 🥳🎊🎉"),
                },
            ),
            Command::Version {  } => (
                Phase::Done,
                Action::Finish { reply: CommandReply::text_only("My version is \"0.3.0\"") },
            ),
            Command::FiatToSats { sender: _, amount_cents, currency } => {
                let c2 = String::from_str(currency.as_str());
                (
                    Phase::AwaitRate { amount: amount_cents, currency, to_sats: true },
                    Action::FetchRate { currency: c2 },
                )
            },
            Command::SatsToFiat { sender: _, amount_sats, currency } => {
                let c2 = String::from_str(currency.as_str());
                (
                    Phase::AwaitRate { amount: amount_sats, currency, to_sats: false },
                    Action::FetchRate { currency: c2 },
                )
            },
            Command::NoCommand => (
                Phase::Failed,
                Action::Fail { message: String::from_str("Unsupported command") },
            ),
        }
    }
}

} // verus!
