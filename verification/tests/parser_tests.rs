use ln_tip_bot::commands::{Command, RecognitionError};
use ln_tip_bot::parser::extract_command;

fn no_members() -> Vec<String> {
    Vec::new()
}

#[test]
fn send_with_full_id_and_memo() {
    let r = extract_command(
        "!send 10 @alice:example.com memo here",
        "@bob:example.com",
        None,
        &no_members(),
        None,
    );
    match r {
        Ok(Command::Send { sender, amount, recipient, memo }) => {
            assert_eq!(sender, "@bob:example.com");
            assert_eq!(amount, 10);
            assert_eq!(recipient, "@alice:example.com");
            assert_eq!(memo, Some("memo here".to_string()));
        },
        other => panic!("expected a send command, got {:?}", other),
    }
}

#[test]
fn send_without_memo() {
    let r = extract_command("!send 7 @alice:example.com", "@bob:x.org", None, &no_members(), None);
    match r {
        Ok(Command::Send { amount, recipient, memo, .. }) => {
            assert_eq!(amount, 7);
            assert_eq!(recipient, "@alice:example.com");
            assert_eq!(memo, None);
        },
        other => panic!("expected a send command, got {:?}", other),
    }
}

#[test]
fn amount_is_parsed_exactly() {
    let r = extract_command("!invoice 123456789", "@a:x.org", None, &no_members(), None);
    match r {
        Ok(Command::Invoice { amount, memo, .. }) => {
            assert_eq!(amount, 123456789);
            assert_eq!(memo, None);
        },
        other => panic!("expected an invoice command, got {:?}", other),
    }
}

#[test]
fn non_numeric_amount_is_recognition_error() {
    let r = extract_command("!invoice ten", "@a:x.org", None, &no_members(), None);
    assert_eq!(r.unwrap_err(), RecognitionError::Malformed);
}

#[test]
fn missing_amount_is_recognition_error() {
    let r = extract_command("!invoice", "@a:x.org", None, &no_members(), None);
    assert_eq!(r.unwrap_err(), RecognitionError::Malformed);
}

#[test]
fn overflowing_amount_is_recognition_error() {
    let r = extract_command(
        "!invoice 18446744073709551616",
        "@a:x.org",
        None,
        &no_members(),
        None,
    );
    assert_eq!(r.unwrap_err(), RecognitionError::Malformed);
}

#[test]
fn largest_amount_is_accepted() {
    let r = extract_command(
        "!invoice 18446744073709551615",
        "@a:x.org",
        None,
        &no_members(),
        None,
    );
    match r {
        Ok(Command::Invoice { amount, .. }) => assert_eq!(amount, u64::MAX),
        other => panic!("expected an invoice command, got {:?}", other),
    }
}

#[test]
fn keywords_match_case_insensitively() {
    let r = extract_command("!BALANCE", "@a:x.org", None, &no_members(), None);
    assert!(matches!(r, Ok(Command::Balance { .. })));
}

#[test]
fn command_is_taken_from_last_line() {
    let r = extract_command("hello there\n!balance", "@a:x.org", None, &no_members(), None);
    assert!(matches!(r, Ok(Command::Balance { .. })));
}

#[test]
fn earlier_line_commands_are_ignored() {
    let r = extract_command("!balance\njust chatting", "@a:x.org", None, &no_members(), None);
    assert!(matches!(r, Ok(Command::NoCommand)));
}

#[test]
fn unmatched_text_is_no_command() {
    let r = extract_command("good morning", "@a:x.org", None, &no_members(), None);
    let c = r.unwrap();
    assert!(c.is_none());
}

#[test]
fn tip_with_reply_target() {
    let r = extract_command(
        "!tip 21 thanks a lot",
        "@a:x.org",
        Some("@b:x.org"),
        &no_members(),
        None,
    );
    match r {
        Ok(Command::Tip { sender, amount, memo, replyee }) => {
            assert_eq!(sender, "@a:x.org");
            assert_eq!(amount, 21);
            assert_eq!(memo, Some("thanks a lot".to_string()));
            assert_eq!(replyee, "@b:x.org");
        },
        other => panic!("expected a tip command, got {:?}", other),
    }
}

#[test]
fn tip_without_reply_target_is_recognition_error() {
    let r = extract_command("!tip 21", "@a:x.org", None, &no_members(), None);
    assert_eq!(r.unwrap_err(), RecognitionError::Malformed);
}

#[test]
fn pay_takes_invoice_token() {
    let r = extract_command("!pay lnbc1something", "@a:x.org", None, &no_members(), None);
    match r {
        Ok(Command::Pay { invoice, .. }) => assert_eq!(invoice, "lnbc1something"),
        other => panic!("expected a pay command, got {:?}", other),
    }
}

#[test]
fn party_is_not_mistaken_for_pay() {
    let r = extract_command("!party", "@a:x.org", None, &no_members(), None);
    assert!(matches!(r, Ok(Command::Party {})));
}

#[test]
fn donate_parses_amount() {
    let r = extract_command("!donate 500", "@a:x.org", None, &no_members(), None);
    match r {
        Ok(Command::Donate { amount, .. }) => assert_eq!(amount, 500),
        other => panic!("expected a donate command, got {:?}", other),
    }
}

#[test]
fn fiat_to_sats_parses_decimal_into_hundredths() {
    let r = extract_command("!fiat-to-sats 1.50 USD", "@a:x.org", None, &no_members(), None);
    match r {
        Ok(Command::FiatToSats { amount_cents, currency, .. }) => {
            assert_eq!(amount_cents, 150);
            assert_eq!(currency, "usd");
        },
        other => panic!("expected a fiat-to-sats command, got {:?}", other),
    }
}

#[test]
fn fiat_to_sats_single_fraction_digit() {
    let r = extract_command("!fiat-to-sats 2.5 eur", "@a:x.org", None, &no_members(), None);
    match r {
        Ok(Command::FiatToSats { amount_cents, .. }) => assert_eq!(amount_cents, 250),
        other => panic!("expected a fiat-to-sats command, got {:?}", other),
    }
}

#[test]
fn fiat_to_sats_whole_number() {
    let r = extract_command("!fiat-to-sats 3 chf", "@a:x.org", None, &no_members(), None);
    match r {
        Ok(Command::FiatToSats { amount_cents, .. }) => assert_eq!(amount_cents, 300),
        other => panic!("expected a fiat-to-sats command, got {:?}", other),
    }
}

#[test]
fn fiat_to_sats_without_currency_is_recognition_error() {
    let r = extract_command("!fiat-to-sats 3", "@a:x.org", None, &no_members(), None);
    assert_eq!(r.unwrap_err(), RecognitionError::Malformed);
}

#[test]
fn sats_to_fiat_parses_integer() {
    let r = extract_command("!sats-to-fiat 1000 usd", "@a:x.org", None, &no_members(), None);
    match r {
        Ok(Command::SatsToFiat { amount_sats, currency, .. }) => {
            assert_eq!(amount_sats, 1000);
            assert_eq!(currency, "usd");
        },
        other => panic!("expected a sats-to-fiat command, got {:?}", other),
    }
}

#[test]
fn unresolved_send_recipient_is_distinct_error() {
    let members = vec!["@carol:x.org".to_string()];
    let r = extract_command("!send 10 nobody", "@a:x.org", None, &members, None);
    assert_eq!(r.unwrap_err(), RecognitionError::UnresolvedRecipient);
}

#[test]
fn recognition_errors_have_distinct_hints() {
    let generic = RecognitionError::Malformed.user_hint();
    let specific = RecognitionError::UnresolvedRecipient.user_hint();
    assert!(generic.contains("!help"));
    assert!(specific.contains("@username:example-server.com"));
    assert_ne!(generic, specific);
}
