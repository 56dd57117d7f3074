use ln_tip_bot::resolver::{
    check_full_user_id, extract_user_from_formatted_msg_body, find_user_in_room, parse_lnurl,
    resolve_recipient, try_to_parse_into_full_username, Resolution,
};

const LNURL_SAMPLE: &str = "LNURL1DP68GURN8GHJ7UM9WFMXJCM99E3K7MF0V9CXJ0M385EKVCENXC6R2C35XVUKXEFCV5MKVV34X5EKZD3EV56NYD3HXQURZEPEXEJXXEPNXSCRVWFNV9NXZCN9XQ6XYEFHVGCXXCMYXYMNSERXFQ5FNS";

#[test]
fn unique_local_name_resolves_to_member() {
    let members = vec!["@alice:example.com".to_string(), "@bob:example.com".to_string()];
    let r = find_user_in_room("alice", &members);
    assert_eq!(r, Some("@alice:example.com".to_string()));
}

#[test]
fn local_name_with_at_sign_resolves() {
    let members = vec!["@alice:example.com".to_string()];
    let r = find_user_in_room("@alice", &members);
    assert_eq!(r, Some("@alice:example.com".to_string()));
}

#[test]
fn unknown_local_name_is_unresolved() {
    let members = vec!["@alice:example.com".to_string()];
    assert_eq!(find_user_in_room("carol", &members), None);
}

#[test]
fn ambiguous_local_name_is_unresolved() {
    let members = vec!["@alice:example.com".to_string(), "@alice:other.org".to_string()];
    assert_eq!(find_user_in_room("alice", &members), None);
}

#[test]
fn empty_and_colon_tokens_are_unresolved() {
    let members = vec!["@alice:example.com".to_string()];
    assert_eq!(find_user_in_room("", &members), None);
    assert_eq!(find_user_in_room("@", &members), None);
    assert_eq!(find_user_in_room("alice:example.com:443", &members), None);
}

#[test]
fn full_username_is_accepted_as_is() {
    let r = try_to_parse_into_full_username("@alice:example-server.com");
    assert_eq!(r, Some("@alice:example-server.com".to_string()));
}

#[test]
fn bad_domains_are_rejected() {
    assert_eq!(try_to_parse_into_full_username("@alice:"), None);
    assert_eq!(try_to_parse_into_full_username("@alice:-bad.com"), None);
    assert_eq!(try_to_parse_into_full_username("@alice:ex..com"), None);
    assert_eq!(try_to_parse_into_full_username("alice"), None);
    assert_eq!(try_to_parse_into_full_username("a:b:c"), None);
    assert!(!check_full_user_id("@al@ice:example.com"));
}

#[test]
fn lightning_address_is_external() {
    assert!(parse_lnurl("satoshi@bitcoin.org"));
}

#[test]
fn lnurl_encoding_is_external() {
    assert!(parse_lnurl(LNURL_SAMPLE));
}

#[test]
fn chat_identity_is_not_external() {
    assert!(!parse_lnurl("@alice:example.com"));
    assert!(!parse_lnurl("alice"));
}

#[test]
fn mention_is_extracted_from_html() {
    let html = "<p>sending to <a href=\"https://matrix.to/#/@carol:example.com\">carol</a></p>";
    let r = extract_user_from_formatted_msg_body(html);
    assert_eq!(r, Some("@carol:example.com".to_string()));
}

#[test]
fn html_without_anchor_is_unresolved() {
    assert_eq!(extract_user_from_formatted_msg_body("<p>no link here</p>"), None);
}

#[test]
fn malformed_html_never_crashes() {
    assert_eq!(extract_user_from_formatted_msg_body("<a <a href=<<>"), None);
}

#[test]
fn resolution_order_external_first() {
    let members = vec!["@alice:example.com".to_string()];
    let r = resolve_recipient("satoshi@bitcoin.org", &members, None);
    match r {
        Resolution::External { address } => assert_eq!(address, "satoshi@bitcoin.org"),
        other => panic!("expected an external address, got {:?}", other),
    }
}

#[test]
fn resolution_falls_back_to_mention() {
    let members: Vec<String> = Vec::new();
    let html = "<a href=\"https://matrix.to/#/@dave:example.com\">dave</a>";
    let r = resolve_recipient("dave", &members, Some(html));
    match r {
        Resolution::User { id } => assert_eq!(id, "@dave:example.com"),
        other => panic!("expected a resolved user, got {:?}", other),
    }
}

#[test]
fn resolution_gives_up_without_hints() {
    let members: Vec<String> = Vec::new();
    let r = resolve_recipient("dave", &members, None);
    assert!(matches!(r, Resolution::Unresolved));
}
