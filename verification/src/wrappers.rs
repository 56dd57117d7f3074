//! The trusted boundary: every call into an outside crate (and the two
//! std string functions vstd gives no specification for) stands here,
//! behind a contract that Verus believes.
//!
//! Results that depend on the arguments alone but are too involved to
//! state (Unicode case folding, bech32 decoding, address grammars, QR
//! encoding, invoice signature checking) are given names: uninterpreted
//! spec functions that the contracts of the callers speak of exactly.

use vstd::prelude::*;

verus! {

/// What `str::to_lowercase` returns: the Unicode lowercasing of `s`.
pub uninterp spec fn lower_of(s: Seq<char>) -> Seq<char>;

/// Relies on `str::to_lowercase`: the result depends on the characters
/// alone.
#[verifier::external_body]
pub fn lowercase(s: &str) -> (r: String)
    ensures
        r@ == lower_of(s@),
{
    s.to_lowercase()
}

/// What `str::to_uppercase` returns: the Unicode uppercasing of `s`.
pub uninterp spec fn upper_of(s: Seq<char>) -> Seq<char>;

/// Relies on `str::to_uppercase`: the result depends on the characters
/// alone.
#[verifier::external_body]
pub fn uppercase(s: &str) -> (r: String)
    ensures
        r@ == upper_of(s@),
{
    s.to_uppercase()
}

/// Whether `lnurl::lnurl::LnUrl::from_str` accepts `s`: a bech32-encoded
/// `lnurl` payload.
pub uninterp spec fn parses_as_lnurl(s: Seq<char>) -> bool;

/// Relies on `lnurl::lnurl::LnUrl::from_str` (crate `lnurl-rs`): it
/// accepts exactly the bech32-encoded strings with an `lnurl` prefix,
/// a property of the characters alone.
#[verifier::external_body]
pub(crate) fn lnurl_parses(s: &str) -> (r: bool)
    ensures
        r == parses_as_lnurl(s@),
{
    <lnurl::lnurl::LnUrl as core::str::FromStr>::from_str(s).is_ok()
}

/// Whether `lnurl::lightning_address::LightningAddress::from_str`
/// accepts `s`: a `user@domain` lightning address.
pub uninterp spec fn parses_as_lightning_address(s: Seq<char>) -> bool;

/// Relies on `lnurl::lightning_address::LightningAddress::from_str`
/// (crate `lnurl-rs`): it accepts exactly the well-formed e-mail-shaped
/// addresses, a property of the characters alone.
#[verifier::external_body]
pub(crate) fn lightning_address_parses(s: &str) -> (r: bool)
    ensures
        r == parses_as_lightning_address(s@),
{
    <lnurl::lightning_address::LightningAddress as core::str::FromStr>::from_str(s).is_ok()
}

/// The target of the first `a[href]` anchor in an HTML fragment, if a
/// parse finds one.
pub uninterp spec fn anchor_href_of(s: Seq<char>) -> Option<Seq<char>>;

/// Relies on `tl::parse` and the `a[href]` query selector of `tl`:
/// extracts the first anchor's `href` value; any parse failure yields
/// `None`. The result depends on the fragment alone.
#[verifier::external_body]
pub(crate) fn first_anchor_href(html: &str) -> (r: Option<String>)
    ensures
        match r {
            Option::Some(h) => anchor_href_of(html@) == Option::Some(h@),
            Option::None => anchor_href_of(html@) is None,
        },
{
    let dom = tl::parse(html, tl::ParserOptions::default()).ok()?;
    let mut hits = dom.query_selector("a[href]")?;
    let node = hits.next()?.get(dom.parser())?;
    let href = node.as_tag()?.attributes().get("href")??;
    Some(href.as_utf8_str().to_string())
}

/// What parsing `s` as a BOLT11 payment request gives: `None` when `s`
/// is not a well-formed signed invoice, otherwise the invoice's
/// optional amount in millisatoshis.
pub uninterp spec fn bolt11_amount_of(s: Seq<char>) -> Option<Option<u64>>;

/// Relies on `lightning_invoice::Bolt11Invoice::from_str` and
/// `Bolt11Invoice::amount_milli_satoshis`: parsing checks the encoding
/// and signature, both functions of the text alone.
#[verifier::external_body]
pub(crate) fn bolt11_amount(s: &str) -> (r: Option<Option<u64>>)
    ensures
        r == bolt11_amount_of(s@),
{
    match s.parse::<lightning_invoice::Bolt11Invoice>() {
        Ok(inv) => Some(inv.amount_milli_satoshis()),
        Err(_) => None,
    }
}

/// The PNG rendering of `s` as a QR code, if one fits.
pub uninterp spec fn qr_png_of(s: Seq<char>) -> Option<Seq<u8>>;

/// Relies on `qrcode_generator::to_png_to_vec` with medium error
/// correction at 256 pixels: deterministic in its input.
#[verifier::external_body]
pub(crate) fn qr_png(s: &str) -> (r: Option<Vec<u8>>)
    ensures
        match r {
            Option::Some(png) => qr_png_of(s@) == Option::Some(png@),
            Option::None => qr_png_of(s@) is None,
        },
{
    qrcode_generator::to_png_to_vec(s, qrcode_generator::QrCodeEcc::Medium, 256).ok()
}

/// Relies on `uuid::Uuid::new_v4` and its `Display` form: a fresh
/// random identifier, rendered hyphenated as 36 characters.
#[verifier::external_body]
pub(crate) fn fresh_uuid() -> (r: String)
    ensures
        r@.len() == 36,
{
    uuid::Uuid::new_v4().to_string()
}

/// Relies on `rand::distributions::Alphanumeric` sampled from
/// `rand::thread_rng`: `len` random characters drawn from `a-z`,
/// `A-Z` and `0-9`.
#[verifier::external_body]
pub(crate) fn random_alphanumeric(len: usize) -> (r: String)
    ensures
        r@.len() == len,
{
    let rng = rand::thread_rng();
    let it = rand::Rng::sample_iter(rng, &rand::distributions::Alphanumeric);
    it.take(len).map(char::from).collect()
}

/// Relies on `chrono::Utc::now` and its `Display` form: the current
/// time as text. Nothing is promised of it: it depends on the clock.
#[verifier::external_body]
pub(crate) fn now_timestamp() -> String {
    chrono::Utc::now().to_string()
}

} // verus!
