use ln_tip_bot::commands::CommandReply;
use ln_tip_bot::config::Config;
use ln_tip_bot::lnbits::{CreateUserArgs, InvoiceParams, LNBitsClient, LNBitsUser, PaymentParams};
use ln_tip_bot::models::{LNBitsId, MatrixId2LNBitsId, NewMatrixId2LNBitsId};
use ln_tip_bot::registration::Registration;

#[test]
fn command_reply_text_only_has_no_image() {
    let r = CommandReply::text_only("hello");
    assert_eq!(r.text.as_deref(), Some("hello"));
    assert!(r.image.is_none());
    assert!(!r.is_empty());
}

#[test]
fn command_reply_emptiness() {
    let r = CommandReply { text: None, image: None };
    assert!(r.is_empty());
    let r = CommandReply::new("text", vec![1, 2, 3]);
    assert!(!r.is_empty());
    assert_eq!(r.image.as_deref(), Some(&[1u8, 2, 3][..]));
}

#[test]
fn config_keeps_every_field() {
    let donate = "@owner:x.org".to_string();
    let c = Config::new(
        "https://m.example.com",
        "@bot:x.org",
        "SECRET-REDACTED",
        "https://ln.example.com",
        "SECRET-REDACTED",
        "bot.db",
        "Debug",
        Some(&donate),
        "bc1qaddr",
    );
    assert_eq!(c.matrix_server, "https://m.example.com");
    assert_eq!(c.matrix_username, "@bot:x.org");
    assert_eq!(c.database_url, "bot.db");
    assert_eq!(c.debug_level, "Debug");
    assert_eq!(c.donate_user.as_deref(), Some("@owner:x.org"));
    assert_eq!(c.btc_donation_address, "bc1qaddr");
}

#[test]
fn lnbits_client_carries_headers() {
    let c = Config::new(
        "https://m.example.com",
        "@bot:x.org",
        "SECRET-REDACTED",
        "https://ln.example.com",
        "SECRET-REDACTED",
        "bot.db",
        "Info",
        None,
        "bc1qaddr",
    );
    let client = LNBitsClient::new(&c);
    assert_eq!(client.url, "https://ln.example.com");
    assert_eq!(client.header[0].0, "Content-Type");
    assert_eq!(client.header[0].1, "application/json");
    assert_eq!(client.header[1].0, "Accept");
    assert_eq!(client.header[2].0, "X-Api-Key");
    assert_eq!(client.header[2].1, c.lnbits_x_api_key);
}

#[test]
fn invoice_params_keep_given_memo() {
    let p = InvoiceParams::simple_new(42, &Some("note".to_string()));
    assert!(!p.out);
    assert_eq!(p.amount, 42);
    assert_eq!(p.memo.as_deref(), Some("note"));
    assert!(p.webhook.is_none());
    assert!(p.description_hash.is_none());
}

#[test]
fn invoice_params_generate_memo_token() {
    let p = InvoiceParams::simple_new(42, &None);
    let memo = p.memo.expect("a generated memo");
    assert_eq!(memo.len(), 36);
    // The generated token is a fresh hyphenated identifier.
    assert_eq!(memo.matches('-').count(), 4);
}

#[test]
fn payment_params_copy_the_request() {
    let p = PaymentParams::new(true, "lnbc1abc");
    assert!(p.out);
    assert_eq!(p.bolt11, "lnbc1abc");
}

#[test]
fn lnbits_user_from_id_mirrors_the_id() {
    let u = LNBitsUser::from_id("uid-1");
    assert_eq!(u.id, "uid-1");
    assert_eq!(u.admin, "uid-1");
    assert_eq!(u.name, "");
    assert_eq!(u.email, "");
    assert!(u.password.is_none());
    assert!(u.wallets.is_none());
}

#[test]
fn create_user_args_keep_fields() {
    let a = CreateUserArgs::new("w", "adm", "user", "e@x.org", "SECRET-REDACTED");
    assert_eq!(a.wallet_name, "w");
    assert_eq!(a.admin_id, "adm");
    assert_eq!(a.user_name, "user");
    assert_eq!(a.email, "e@x.org");
}

#[test]
fn mapping_records_round_trip() {
    let m = NewMatrixId2LNBitsId::new("@a:x.org", "uid", "adm", "2024-01-01");
    assert_eq!(m.matrix_id, "@a:x.org");
    assert_eq!(m.lnbits_id, "uid");
    assert_eq!(m.lnbits_admin, "adm");
    assert_eq!(m.date_created, "2024-01-01");
    let stored = MatrixId2LNBitsId {
        matrix_id: "@a:x.org".to_string(),
        lnbits_id: "uid".to_string(),
        lnbits_admin: "adm".to_string(),
        date_created: "2024-01-01".to_string(),
    };
    let id: LNBitsId = stored.get_lnbits_id();
    assert_eq!(id.lnbits_id, "uid");
}

#[test]
fn registration_tokens_are_long_and_alphanumeric() {
    let r = Registration::create_registration();
    assert_eq!(r.app_token.len(), 64);
    assert_eq!(r.server_token.len(), 64);
    assert!(r.app_token.chars().all(|c| c.is_ascii_alphanumeric()));
    assert!(r.server_token.chars().all(|c| c.is_ascii_alphanumeric()));
    assert_ne!(r.app_token, r.server_token);
    assert_eq!(r.id, "");
    assert!(r.protocols.is_empty());
}
