use ln_tip_bot::commands::Command;
use ln_tip_bot::config::Config;
use ln_tip_bot::lnbits::{LNBitsClient, Wallet};
use ln_tip_bot::machine::{Action, BusinessLogicContext, Event, Phase, step};

const AMOUNTLESS_INVOICE: &str = "lnbc1pvjluezsp5zyg3zyg3zyg3zyg3zyg3zyg3zyg3zyg3zyg3zyg3zyg3zyg3zygspp5qqqsyqcyq5rqwzqfqqqsyqcyq5rqwzqfqqqsyqcyq5rqwzqfqypqdpl2pkx2ctnv5sxxmmwwd5kgetjypeh2ursdae8g6twvus8g6rfwvs8qun0dfjkxaq9qrsgq357wnc5r2ueh7ck6q93dj32dlqnls087fxdwk8qakdyafkq3yap9us6v52vjjsrvywa6rt52cm9r9zqt8r2t7mlcwspyetp5h2tztugp9lfyql";

const INVOICE_WITH_AMOUNT: &str = "lnbc2500u1pvjluezsp5zyg3zyg3zyg3zyg3zyg3zyg3zyg3zyg3zyg3zyg3zyg3zyg3zygspp5qqqsyqcyq5rqwzqfqqqsyqcyq5rqwzqfqqqsyqcyq5rqwzqfqypqdq5xysxxatsyp3k7enxv4jsxqzpu9qrsgquk0rl77nj30yxdy8j9vdx85fkpmdla2087ne0xh8nhedh8w27kyke0lp53ut353s06fv3qfegext0eh0ymjpf39tuven09sam30g4vgpfna3rh";

fn mk_ctx(donate_user: Option<&str>) -> BusinessLogicContext {
    let donate = donate_user.map(|s| s.to_string());
    let config = Config::new(
        "https://matrix.example.com",
        "@tipbot:example.com",
        "SECRET-REDACTED",
        "https://lnbits.example.com",
        "SECRET-REDACTED",
        "bot.db",
        "Info",
        donate.as_ref(),
        "bc1qexampledonationaddress",
    );
    let client = LNBitsClient::new(&config);
    BusinessLogicContext::new(client, config)
}

fn mk_wallet() -> Wallet {
    Wallet {
        id: "w-1".to_string(),
        admin: None,
        admin_key: "SECRET-REDACTED".to_string(),
        in_key: "SECRET-REDACTED".to_string(),
        name: "somebodywallet".to_string(),
        user: "u-1".to_string(),
        balance: None,
    }
}

/// Walks the provisioning of an existing mapping up to the wallet
/// list, returning the phase that awaits the wallet list.
fn provision_existing(phase: Phase, action: Action, who: &str) -> Phase {
    match &action {
        Action::CheckMapping { matrix_id } => assert_eq!(matrix_id, who),
        other => panic!("expected a mapping check, got {:?}", other),
    }
    let (phase, action) = step(phase, Event::MappingExists { exists: true });
    match &action {
        Action::LookupMapping { matrix_id } => assert_eq!(matrix_id, who),
        other => panic!("expected a mapping lookup, got {:?}", other),
    }
    let (phase, action) = step(phase, Event::MappingFound { lnbits_id: "u-1".to_string() });
    match &action {
        Action::ListWallets { user } => {
            assert_eq!(user.id, "u-1");
            assert_eq!(user.admin, "u-1");
        },
        other => panic!("expected a wallet list request, got {:?}", other),
    }
    phase
}

fn finish_text(action: Action) -> String {
    match action {
        Action::Finish { reply } => {
            assert!(reply.image.is_none());
            reply.text.expect("a finished reply carries text")
        },
        other => panic!("expected the flow to finish, got {:?}", other),
    }
}

fn fail_message(action: Action) -> String {
    match action {
        Action::Fail { message } => message,
        other => panic!("expected the flow to fail, got {:?}", other),
    }
}

#[test]
fn balance_reports_truncated_sats() {
    let ctx = mk_ctx(None);
    let (phase, action) = ctx.processing_command(Command::Balance {
        sender: "@a:x.org".to_string(),
    });
    let phase = provision_existing(phase, action, "@a:x.org");
    let (phase, action) = step(phase, Event::WalletList { wallets: vec![mk_wallet()] });
    assert!(matches!(action, Action::GetWalletInfo { .. }));
    let (phase, action) = step(phase, Event::WalletInfoReceived { balance: Some(12345) });
    assert!(phase.is_terminal());
    assert_eq!(finish_text(action), "Your balance is 12 Sats");
}

#[test]
fn absent_balance_reports_zero() {
    let ctx = mk_ctx(None);
    let (phase, action) = ctx.processing_command(Command::Balance {
        sender: "@a:x.org".to_string(),
    });
    let phase = provision_existing(phase, action, "@a:x.org");
    let (phase, _) = step(phase, Event::WalletList { wallets: vec![mk_wallet()] });
    let (_, action) = step(phase, Event::WalletInfoReceived { balance: None });
    assert_eq!(finish_text(action), "Your balance is 0 Sats");
}

#[test]
fn first_use_provisions_a_wallet() {
    let ctx = mk_ctx(None);
    let (phase, action) = ctx.processing_command(Command::Balance {
        sender: "@new:x.org".to_string(),
    });
    assert!(matches!(action, Action::CheckMapping { .. }));
    let (phase, action) = step(phase, Event::MappingExists { exists: false });
    match &action {
        Action::CreateUser { args } => {
            assert_eq!(args.wallet_name, "@new:x.orgwallet");
            assert_eq!(args.user_name, "@new:x.org");
            assert_eq!(args.admin_id.len(), 36);
            assert_eq!(args.email, "");
            assert_eq!(args.password, "");
        },
        other => panic!("expected a user creation, got {:?}", other),
    }
    let (phase, action) = step(
        phase,
        Event::UserCreated { lnbits_id: "uid-9".to_string(), admin_id: "adm-9".to_string() },
    );
    match &action {
        Action::StoreMapping { mapping } => {
            assert_eq!(mapping.matrix_id, "@new:x.org");
            assert_eq!(mapping.lnbits_id, "uid-9");
            assert_eq!(mapping.lnbits_admin, "adm-9");
        },
        other => panic!("expected the mapping to be stored, got {:?}", other),
    }
    let (_, action) = step(phase, Event::MappingStored);
    assert!(matches!(action, Action::LookupMapping { .. }));
}

#[test]
fn losing_the_provisioning_race_loads_the_stored_mapping() {
    let ctx = mk_ctx(None);
    let (phase, _) = ctx.processing_command(Command::Balance { sender: "@new:x.org".to_string() });
    let (phase, _) = step(phase, Event::MappingExists { exists: false });
    let (phase, _) = step(
        phase,
        Event::UserCreated { lnbits_id: "uid-a".to_string(), admin_id: "adm-a".to_string() },
    );
    // The store's uniqueness constraint reports a concurrent winner:
    // the flow proceeds by loading the stored mapping.
    let (phase, action) = step(phase, Event::MappingConflict);
    assert!(matches!(action, Action::LookupMapping { .. }));
    let (_, action) = step(phase, Event::MappingFound { lnbits_id: "uid-b".to_string() });
    match &action {
        Action::ListWallets { user } => assert_eq!(user.id, "uid-b"),
        other => panic!("expected a wallet list request, got {:?}", other),
    }
}

#[test]
fn creation_failure_aborts_without_partial_mapping() {
    let ctx = mk_ctx(None);
    let (phase, _) = ctx.processing_command(Command::Balance { sender: "@new:x.org".to_string() });
    let (phase, _) = step(phase, Event::MappingExists { exists: false });
    let (phase, action) = step(
        phase,
        Event::CallFailed { message: "creation rejected".to_string() },
    );
    assert!(phase.is_terminal());
    assert_eq!(fail_message(action), "creation rejected");
}

#[test]
fn pay_without_amount_fails_and_never_pays() {
    let ctx = mk_ctx(None);
    let (phase, action) = ctx.processing_command(Command::Pay {
        sender: "@a:x.org".to_string(),
        invoice: AMOUNTLESS_INVOICE.to_string(),
    });
    // The flow is terminal at once: no wallet call, no payment call.
    assert!(phase.is_terminal());
    assert_eq!(fail_message(action), "Incorrect invoice");
}

#[test]
fn unparseable_invoice_fails() {
    let ctx = mk_ctx(None);
    let (phase, action) = ctx.processing_command(Command::Pay {
        sender: "@a:x.org".to_string(),
        invoice: "not-an-invoice".to_string(),
    });
    assert!(phase.is_terminal());
    assert_eq!(fail_message(action), "Invalid invoice");
}

#[test]
fn pay_with_amount_runs_to_payment() {
    let ctx = mk_ctx(None);
    let (phase, action) = ctx.processing_command(Command::Pay {
        sender: "@a:x.org".to_string(),
        invoice: INVOICE_WITH_AMOUNT.to_string(),
    });
    let phase = provision_existing(phase, action, "@a:x.org");
    let (phase, action) = step(phase, Event::WalletList { wallets: vec![mk_wallet()] });
    match &action {
        Action::PayInvoice { params, .. } => {
            assert!(params.out);
            assert_eq!(params.bolt11, INVOICE_WITH_AMOUNT);
        },
        other => panic!("expected a payment, got {:?}", other),
    }
    let (phase, action) = step(phase, Event::PaymentSent);
    assert!(phase.is_terminal());
    assert_eq!(finish_text(action), "\"@a:x.org\" payed an invoice");
}

#[test]
fn send_invoices_recipient_then_pays_as_sender() {
    let ctx = mk_ctx(None);
    let (phase, action) = ctx.processing_command(Command::Send {
        sender: "@a:x.org".to_string(),
        amount: 5,
        recipient: "@b:x.org".to_string(),
        memo: Some("hi".to_string()),
    });
    // First leg: the recipient's wallet issues an invoice.
    let phase = provision_existing(phase, action, "@b:x.org");
    let (phase, action) = step(phase, Event::WalletList { wallets: vec![mk_wallet()] });
    match &action {
        Action::CreateInvoice { params, .. } => {
            assert!(!params.out);
            assert_eq!(params.amount, 5);
            assert_eq!(params.memo.as_deref(), Some("hi"));
        },
        other => panic!("expected an invoice creation, got {:?}", other),
    }
    // Second leg: the sender's wallet pays it.
    let (phase, action) = step(
        phase,
        Event::InvoiceCreated { payment_request: INVOICE_WITH_AMOUNT.to_string() },
    );
    let phase = provision_existing(phase, action, "@a:x.org");
    let (phase, action) = step(phase, Event::WalletList { wallets: vec![mk_wallet()] });
    assert!(matches!(action, Action::PayInvoice { .. }));
    let (phase, action) = step(phase, Event::PaymentSent);
    assert!(phase.is_terminal());
    assert_eq!(
        finish_text(action),
        "\"@a:x.org\" sent 5 Sats to \"@b:x.org\" with memo \"hi\"",
    );
}

#[test]
fn invoice_reply_carries_qr_image() {
    let ctx = mk_ctx(None);
    let (phase, action) = ctx.processing_command(Command::Invoice {
        sender: "@a:x.org".to_string(),
        amount: 21,
        memo: None,
    });
    let phase = provision_existing(phase, action, "@a:x.org");
    let (phase, action) = step(phase, Event::WalletList { wallets: vec![mk_wallet()] });
    match &action {
        Action::CreateInvoice { params, .. } => {
            // A missing memo is replaced by a fresh random token.
            assert_eq!(params.memo.as_ref().expect("generated memo").len(), 36);
            assert_eq!(params.amount, 21);
        },
        other => panic!("expected an invoice creation, got {:?}", other),
    }
    let (phase, action) = step(
        phase,
        Event::InvoiceCreated { payment_request: INVOICE_WITH_AMOUNT.to_string() },
    );
    assert!(phase.is_terminal());
    match action {
        Action::Finish { reply } => {
            assert_eq!(reply.text.as_deref(), Some(INVOICE_WITH_AMOUNT));
            let png = reply.image.expect("a QR image");
            assert_eq!(&png[0..4], &[0x89, 0x50, 0x4e, 0x47]);
        },
        other => panic!("expected the flow to finish, got {:?}", other),
    }
}

#[test]
fn wrong_wallet_count_is_fatal() {
    let ctx = mk_ctx(None);
    let (phase, action) = ctx.processing_command(Command::Balance {
        sender: "@a:x.org".to_string(),
    });
    let phase = provision_existing(phase, action, "@a:x.org");
    let (phase, action) = step(phase, Event::WalletList { wallets: vec![] });
    assert!(phase.is_terminal());
    assert_eq!(fail_message(action), "Expected a single wallet");
}

#[test]
fn donations_refused_without_recipient() {
    let ctx = mk_ctx(None);
    let (phase, action) = ctx.processing_command(Command::Donate {
        sender: "@a:x.org".to_string(),
        amount: 100,
    });
    assert!(phase.is_terminal());
    assert_eq!(finish_text(action), "Thanks but this agent does not accept donations");
}

#[test]
fn donation_thanks_after_payment() {
    let ctx = mk_ctx(Some("@owner:x.org"));
    let (phase, action) = ctx.processing_command(Command::Donate {
        sender: "@a:x.org".to_string(),
        amount: 100,
    });
    let phase = provision_existing(phase, action, "@owner:x.org");
    let (phase, action) = step(phase, Event::WalletList { wallets: vec![mk_wallet()] });
    match &action {
        Action::CreateInvoice { params, .. } => {
            assert_eq!(params.memo.as_deref(), Some("a generouse donation from \"@a:x.org\""));
        },
        other => panic!("expected an invoice creation, got {:?}", other),
    }
    let (phase, action) = step(
        phase,
        Event::InvoiceCreated { payment_request: INVOICE_WITH_AMOUNT.to_string() },
    );
    let phase = provision_existing(phase, action, "@a:x.org");
    let (phase, _) = step(phase, Event::WalletList { wallets: vec![mk_wallet()] });
    let (phase, action) = step(phase, Event::PaymentSent);
    assert!(phase.is_terminal());
    assert_eq!(finish_text(action), "Thanks for the donation");
}

#[test]
fn external_address_send_goes_through_lnurl() {
    let ctx = mk_ctx(None);
    let (phase, action) = ctx.processing_command(Command::Send {
        sender: "@a:x.org".to_string(),
        amount: 10,
        recipient: "satoshi@bitcoin.org".to_string(),
        memo: Some("cheers".to_string()),
    });
    match &action {
        Action::FetchLnurlParams { address } => assert_eq!(address, "satoshi@bitcoin.org"),
        other => panic!("expected the pay parameters fetch, got {:?}", other),
    }
    let (phase, action) = step(phase, Event::LnurlParams { is_pay: true });
    match &action {
        Action::FetchLnurlInvoice { amount_msat, comment, .. } => {
            // Satoshis are converted to the address protocol's base units.
            assert_eq!(*amount_msat, 10_000);
            assert_eq!(comment.as_deref(), Some("cheers"));
        },
        other => panic!("expected the invoice fetch, got {:?}", other),
    }
    let (phase, action) = step(
        phase,
        Event::LnurlInvoice { invoice: INVOICE_WITH_AMOUNT.to_string() },
    );
    let phase = provision_existing(phase, action, "@a:x.org");
    let (phase, action) = step(phase, Event::WalletList { wallets: vec![mk_wallet()] });
    assert!(matches!(action, Action::PayInvoice { .. }));
    let (_, action) = step(phase, Event::PaymentSent);
    assert_eq!(
        finish_text(action),
        "\"@a:x.org\" sent 10 Sats to \"satoshi@bitcoin.org\" with memo \"cheers\"",
    );
}

#[test]
fn non_pay_lnurl_response_is_invalid() {
    let ctx = mk_ctx(None);
    let (phase, _) = ctx.processing_command(Command::Send {
        sender: "@a:x.org".to_string(),
        amount: 10,
        recipient: "satoshi@bitcoin.org".to_string(),
        memo: None,
    });
    let (phase, action) = step(phase, Event::LnurlParams { is_pay: false });
    assert!(phase.is_terminal());
    assert_eq!(fail_message(action), "Invalid LNURL");
}

#[test]
fn fiat_to_sats_reports_conversion() {
    let ctx = mk_ctx(None);
    let (phase, action) = ctx.processing_command(Command::FiatToSats {
        sender: "@a:x.org".to_string(),
        amount_cents: 150,
        currency: "usd".to_string(),
    });
    match &action {
        Action::FetchRate { currency } => assert_eq!(currency, "usd"),
        other => panic!("expected a rate fetch, got {:?}", other),
    }
    // One bitcoin is 50,000.00 of the currency.
    let (phase, action) = step(phase, Event::Rate { rate_cents: 5_000_000 });
    assert!(phase.is_terminal());
    assert_eq!(finish_text(action), "1.50 USD are approximately 3000 Sats.");
}

#[test]
fn one_unit_uses_singular_phrasing() {
    let ctx = mk_ctx(None);
    let (phase, _) = ctx.processing_command(Command::FiatToSats {
        sender: "@a:x.org".to_string(),
        amount_cents: 100,
        currency: "usd".to_string(),
    });
    let (_, action) = step(phase, Event::Rate { rate_cents: 5_000_000 });
    assert_eq!(finish_text(action), "1.00 USD is approximately 2000 Sats.");
}

#[test]
fn sats_to_fiat_reports_conversion() {
    let ctx = mk_ctx(None);
    let (phase, action) = ctx.processing_command(Command::SatsToFiat {
        sender: "@a:x.org".to_string(),
        amount_sats: 1000,
        currency: "usd".to_string(),
    });
    assert!(matches!(action, Action::FetchRate { .. }));
    let (phase, action) = step(phase, Event::Rate { rate_cents: 5_000_000 });
    assert!(phase.is_terminal());
    assert_eq!(finish_text(action), "1000 Sats are approximately 0.50 USD.");
}

#[test]
fn zero_rate_is_fatal() {
    let ctx = mk_ctx(None);
    let (phase, _) = ctx.processing_command(Command::SatsToFiat {
        sender: "@a:x.org".to_string(),
        amount_sats: 1000,
        currency: "usd".to_string(),
    });
    let (phase, action) = step(phase, Event::Rate { rate_cents: 0 });
    assert!(phase.is_terminal());
    assert_eq!(fail_message(action), "Invalid conversion rate");
}

#[test]
fn help_party_and_version_finish_at_once() {
    let ctx = mk_ctx(None);
    let (phase, action) = ctx.processing_command(Command::Help {});
    assert!(phase.is_terminal());
    let help = finish_text(action);
    assert!(help.contains("!tip"));
    assert!(help.contains("!sats-to-fiat"));
    assert!(help.contains("\"bc1qexampledonationaddress\""));

    let (phase, action) = ctx.processing_command(Command::Party {});
    assert!(phase.is_terminal());
    assert!(finish_text(action).contains("PARTY"));

    let (phase, action) = ctx.processing_command(Command::Version {});
    assert!(phase.is_terminal());
    assert_eq!(finish_text(action), "My version is \"0.3.0\"");
}

#[test]
fn mismatched_event_is_a_protocol_error() {
    let ctx = mk_ctx(None);
    let (phase, _) = ctx.processing_command(Command::Balance { sender: "@a:x.org".to_string() });
    let (phase, action) = step(phase, Event::PaymentSent);
    assert!(phase.is_terminal());
    assert_eq!(fail_message(action), "Unexpected response");
}
