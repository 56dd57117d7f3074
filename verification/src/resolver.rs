//! The identity resolver: turns a raw recipient token into an external
//! payment address, a fully-qualified chat identity, or "unresolved".
//!
//! Resolution order, first success wins: external payment address;
//! syntactically valid full identity (accepted as-is); unique room-member
//! match on the bare local name; identity taken from the first hyperlink
//! of the rich-text rendering. Ambiguity is never silently guessed.

use vstd::prelude::*;
use crate::text::{count_char, first_char_at, char_count, find_char, str_eq, lemma_first_char_at};
use crate::wrappers::{
    anchor_href_of, first_anchor_href, lightning_address_parses, lnurl_parses,
    parses_as_lightning_address, parses_as_lnurl,
};

verus! {

/// Whether the token is an external payment address: an LNURL-encoded
/// payload or a `user@domain` lightning address.
pub open spec fn is_external_address(s: Seq<char>) -> bool {
    parses_as_lnurl(s) || parses_as_lightning_address(s)
}

/// Reports whether the token is an external payment address, which
/// bypasses chat-identity resolution entirely.
pub fn parse_lnurl(input: &str) -> (r: bool)
    ensures
        r == is_external_address(input@),
{
    lnurl_parses(input) || lightning_address_parses(input)
}

pub open spec fn is_alnum_char(c: char) -> bool {
    (97 <= c as u32 <= 122) || (65 <= c as u32 <= 90) || (48 <= c as u32 <= 57)
}

/// A syntactically valid domain: letters, digits, hyphens and dots,
/// starting and ending alphanumeric, without consecutive dots.
pub open spec fn valid_hostname(h: Seq<char>) -> bool {
    &&& h.len() >= 1
    &&& is_alnum_char(h[0])
    &&& is_alnum_char(h[h.len() - 1])
    &&& forall|i: int|
        0 <= i < h.len() ==> (is_alnum_char(#[trigger] h[i]) || h[i] == '-' || h[i] == '.')
    &&& forall|i: int| 0 <= i < h.len() - 1 ==> !(#[trigger] h[i] == '.' && h[i + 1] == '.')
}

/// A fully-qualified chat identity: an optional leading `@`, a
/// non-empty local name, one colon, and a valid domain.
pub open spec fn is_full_user_id(tok: Seq<char>) -> bool {
    let colon = first_char_at(tok, ':', 0);
    let start: int = if tok.len() > 0 && tok[0] == '@' {
        1
    } else {
        0
    };
    &&& count_char(tok, ':') == 1
    &&& colon > start
    &&& forall|i: int| start <= i < colon ==> #[trigger] tok[i] != '@'
    &&& valid_hostname(tok.subrange(colon + 1, tok.len() as int))
}

fn alnum(c: char) -> (r: bool)
    ensures
        r == is_alnum_char(c),
{
    let v = c as u32;
    (97 <= v && v <= 122) || (65 <= v && v <= 90) || (48 <= v && v <= 57)
}

/// Checks the domain grammar.
fn check_hostname(h: &str) -> (r: bool)
    ensures
        r == valid_hostname(h@),
{
    let n = h.unicode_len();
    if n == 0 {
        return false;
    }
    if !alnum(h.get_char(0)) {
        return false;
    }
    if !alnum(h.get_char(n - 1)) {
        return false;
    }
    let mut i: usize = 0;
    while i < n
        invariant
            n == h@.len(),
            0 <= i <= n,
            forall|k: int|
                0 <= k < i ==> (is_alnum_char(#[trigger] h@[k]) || h@[k] == '-' || h@[k] == '.'),
            forall|k: int|
                0 <= k < i && k + 1 < n ==> !(#[trigger] h@[k] == '.' && h@[k + 1] == '.'),
            is_alnum_char(h@[0]),
        decreases n - i,
    {
        let c = h.get_char(i);
        if !(alnum(c) || c == '-' || c == '.') {
            return false;
        }
        if c == '.' && i + 1 < n && h.get_char(i + 1) == '.' {
            return false;
        }
        i = i + 1;
    }
    true
}

/// Checks the full-identity grammar.
#[verifier::loop_isolation(false)]
pub fn check_full_user_id(tok: &str) -> (r: bool)
    ensures
        r == is_full_user_id(tok@),
{
    let n = tok.unicode_len();
    if char_count(tok, ':') != 1 {
        return false;
    }
    let colon = find_char(tok, ':');
    proof {
        lemma_first_char_at(tok@, ':', 0);
        if colon == n {
            crate::text::lemma_count_char_zero(tok@, ':');
            assert(false);
        }
    }
    let start: usize = if n > 0 && tok.get_char(0) == '@' {
        1
    } else {
        0
    };
    if colon <= start {
        return false;
    }
    let mut i: usize = start;
    while i < colon
        invariant
            n == tok@.len(),
            colon < n,
            start <= i <= colon,
            forall|k: int| start <= k < i ==> #[trigger] tok@[k] != '@',
        decreases colon - i,
    {
        if tok.get_char(i) == '@' {
            proof {
                assert(tok@[i as int] == '@');
                if is_full_user_id(tok@) {
                    assert(tok@[i as int] != '@');
                    assert(false);
                }
            }
            return false;
        }
        i = i + 1;
    }
    let host = tok.substring_char(colon + 1, n);
    check_hostname(host)
}

/// Accepts a token that is already a fully-qualified identity, as-is,
/// without verifying room membership.
pub fn try_to_parse_into_full_username(username: &str) -> (r: Option<String>)
    ensures
        match r {
            Option::Some(u) => is_full_user_id(username@) && u@ == username@,
            Option::None => !is_full_user_id(username@),
        },
{
    if check_full_user_id(username) {
        Option::Some(String::from_str(username))
    } else {
        Option::None
    }
}

/// The local name of a full member identity: what stands between the
/// leading `@` (if any) and the first colon.
pub open spec fn localpart_of(m: Seq<char>) -> Seq<char> {
    let start: int = if m.len() > 0 && m[0] == '@' {
        1
    } else {
        0
    };
    m.subrange(start, first_char_at(m, ':', start))
}

pub open spec fn has_match(ms: Seq<Seq<char>>, name: Seq<char>, i: int) -> bool {
    0 <= i < ms.len() && localpart_of(ms[i]) == name
}

/// The member whose local name matches, when exactly one does.
pub open spec fn unique_match(ms: Seq<Seq<char>>, name: Seq<char>) -> Option<Seq<char>> {
    if exists|i: int|
        has_match(ms, name, i) && (forall|k: int| has_match(ms, name, k) ==> k == i) {
        Option::Some(
            ms[choose|i: int|
                has_match(ms, name, i) && (forall|k: int| has_match(ms, name, k) ==> k == i)],
        )
    } else {
        Option::None
    }
}

/// What scanning the room for a bare local name gives: `None` for an
/// empty or colon-carrying token, else the unique member whose local
/// name equals the token (stripped of a leading `@`).
pub open spec fn stripped_name(token: Seq<char>) -> Seq<char> {
    if token.len() > 0 && token[0] == '@' {
        token.subrange(1, token.len() as int)
    } else {
        token
    }
}

pub open spec fn spec_find_user_in_room(token: Seq<char>, ms: Seq<Seq<char>>) -> Option<
    Seq<char>,
> {
    if token.len() == 0 {
        Option::None
    } else if count_char(token, ':') > 0 {
        Option::None
    } else {
        if stripped_name(token).len() == 0 {
            Option::None
        } else {
            unique_match(ms, stripped_name(token))
        }
    }
}

/// A bare local name matching exactly one joined member resolves to
/// that member.
pub proof fn lemma_unique_local_name_resolves(token: Seq<char>, ms: Seq<Seq<char>>, i: int)
    requires
        token.len() > 0,
        count_char(token, ':') == 0,
        stripped_name(token).len() > 0,
        has_match(ms, stripped_name(token), i),
        forall|k: int| has_match(ms, stripped_name(token), k) ==> k == i,
    ensures
        spec_find_user_in_room(token, ms) == Option::Some(ms[i]),
{
    let name = stripped_name(token);
    assert(exists|c: int|
        has_match(ms, name, c) && (forall|k: int| has_match(ms, name, k) ==> k == c)) by {
        assert(has_match(ms, name, i) && (forall|k: int| has_match(ms, name, k) ==> k == i));
    }
    let c = choose|c: int|
        has_match(ms, name, c) && (forall|k: int| has_match(ms, name, k) ==> k == c);
    assert(c == i);
}

/// A bare local name matching two different members resolves to
/// nothing: ambiguity is never guessed.
pub proof fn lemma_ambiguous_local_name_unresolved(
    token: Seq<char>,
    ms: Seq<Seq<char>>,
    i: int,
    j: int,
)
    requires
        token.len() > 0,
        count_char(token, ':') == 0,
        stripped_name(token).len() > 0,
        i != j,
        has_match(ms, stripped_name(token), i),
        has_match(ms, stripped_name(token), j),
    ensures
        spec_find_user_in_room(token, ms) is None,
{
    let name = stripped_name(token);
    if exists|c: int|
        has_match(ms, name, c) && (forall|k: int| has_match(ms, name, k) ==> k == c) {
        let c = choose|c: int|
            has_match(ms, name, c) && (forall|k: int| has_match(ms, name, k) ==> k == c);
        assert(i == c && j == c);
        assert(false);
    }
}

/// A bare local name matching no member resolves to nothing.
pub proof fn lemma_unknown_local_name_unresolved(token: Seq<char>, ms: Seq<Seq<char>>)
    requires
        token.len() > 0,
        count_char(token, ':') == 0,
        stripped_name(token).len() > 0,
        forall|k: int| !has_match(ms, stripped_name(token), k),
    ensures
        spec_find_user_in_room(token, ms) is None,
{
}

/// The local name of `m`, as text.
fn member_localpart(m: &str) -> (r: String)
    ensures
        r@ == localpart_of(m@),
{
    let n = m.unicode_len();
    let start: usize = if n > 0 && m.get_char(0) == '@' {
        1
    } else {
        0
    };
    let end = find_char(m, ':');
    proof {
        lemma_first_char_at(m@, ':', 0);
        if start == 1 {
            assert(first_char_at(m@, ':', 0) == first_char_at(m@, ':', 1));
        }
        lemma_first_char_at(m@, ':', start as int);
    }
    let end = if end < start {
        start
    } else {
        end
    };
    String::from_str(m.substring_char(start, end))
}

/// Scans the joined members for a bare local name. A unique match
/// resolves; zero or several matches resolve to nothing: ambiguity is
/// never guessed.
#[verifier::loop_isolation(false)]
pub fn find_user_in_room(partial_user_id: &str, members: &Vec<String>) -> (r: Option<String>)
    ensures
        match r {
            Option::Some(m) => spec_find_user_in_room(partial_user_id@, members.deep_view())
                == Option::Some(m@),
            Option::None => spec_find_user_in_room(partial_user_id@, members.deep_view())
                is None,
        },
{
    let n = partial_user_id.unicode_len();
    if n == 0 {
        return Option::None;
    }
    if char_count(partial_user_id, ':') > 0 {
        return Option::None;
    }
    let stripped: &str = if partial_user_id.get_char(0) == '@' {
        partial_user_id.substring_char(1, n)
    } else {
        partial_user_id
    };
    if stripped.unicode_len() == 0 {
        return Option::None;
    }
    let ghost ms = members.deep_view();
    let ghost name = stripped@;
    let mut matched: Option<String> = Option::None;
    let ghost mut jj: int = 0;
    let mut i: usize = 0;
    while i < members.len()
        invariant
            ms == members.deep_view(),
            name == stripped@,
            0 <= i <= members@.len(),
            ms.len() == members@.len(),
            matched is None ==> forall|k: int| 0 <= k < i ==> !has_match(ms, name, k),
            matched matches Option::Some(m) ==> {
                &&& 0 <= jj < i
                &&& has_match(ms, name, jj)
                &&& m@ == ms[jj]
                &&& forall|k: int| 0 <= k < i && k != jj ==> !has_match(ms, name, k)
            },
        decreases members@.len() - i,
    {
        proof {
            assert(ms[i as int] == members@[i as int]@);
        }
        let lp = member_localpart(members[i].as_str());
        if str_eq(lp.as_str(), stripped) {
            if matched.is_some() {
                proof {
                    assert(has_match(ms, name, i as int));
                    assert(has_match(ms, name, jj));
                    assert(jj != i as int);
                    assert(unique_match(ms, name) is None) by {
                        if exists|c: int|
                            has_match(ms, name, c) && (forall|k: int|
                                has_match(ms, name, k) ==> k == c) {
                            let c = choose|c: int|
                                has_match(ms, name, c) && (forall|k: int|
                                    has_match(ms, name, k) ==> k == c);
                            assert(has_match(ms, name, jj) ==> jj == c);
                            assert(has_match(ms, name, i as int) ==> i as int == c);
                            assert(false);
                        }
                    }
                    assert(spec_find_user_in_room(partial_user_id@, members.deep_view()) is None);
                }
                return Option::None;
            }
            matched = Option::Some(String::from_str(members[i].as_str()));
            proof {
                jj = i as int;
            }
        }
        i = i + 1;
    }
    match matched {
        Option::Some(m) => {
            proof {
                let c = choose|c: int|
                    has_match(ms, name, c) && (forall|k: int| has_match(ms, name, k) ==> k == c);
                assert(has_match(ms, name, jj) && (forall|k: int|
                    has_match(ms, name, k) ==> k == jj));
                assert(c == jj);
            }
            Option::Some(m)
        },
        Option::None => {
            proof {
                assert(forall|k: int| !has_match(ms, name, k));
            }
            Option::None
        },
    }
}

/// The identity taken from an anchor target: the part after the single
/// `@`, prefixed with `@`, if that makes a valid full identity.
pub open spec fn spec_user_from_href(h: Seq<char>) -> Option<Seq<char>> {
    if count_char(h, '@') == 1 {
        let at = first_char_at(h, '@', 0);
        let cand = seq!['@'] + h.subrange(at + 1, h.len() as int);
        if is_full_user_id(cand) {
            Option::Some(cand)
        } else {
            Option::None
        }
    } else {
        Option::None
    }
}

/// The identity the rich-text rendering mentions: taken from the first
/// hyperlink, when there is one and it embeds a valid identity.
pub open spec fn spec_extract_mention(f: Seq<char>) -> Option<Seq<char>> {
    match anchor_href_of(f) {
        Option::Some(h) => spec_user_from_href(h),
        Option::None => Option::None,
    }
}

/// Extracts a mentioned identity from the HTML rendering of a message.
/// Any parse failure yields `None`, never a crash.
pub fn extract_user_from_formatted_msg_body(formatted_msg_body: &str) -> (r: Option<String>)
    ensures
        match r {
            Option::Some(u) => spec_extract_mention(formatted_msg_body@) == Option::Some(u@),
            Option::None => spec_extract_mention(formatted_msg_body@) is None,
        },
{
    let href = match first_anchor_href(formatted_msg_body) {
        Option::Some(h) => h,
        Option::None => {
            return Option::None;
        },
    };
    if char_count(href.as_str(), '@') != 1 {
        return Option::None;
    }
    let at = find_char(href.as_str(), '@');
    let n = href.as_str().unicode_len();
    proof {
        lemma_first_char_at(href@, '@', 0);
        if at == n {
            crate::text::lemma_count_char_zero(href@, '@');
            assert(false);
        }
    }
    let mut cand = String::from_str("@");
    cand.append(href.as_str().substring_char(at + 1, n));
    proof {
        reveal_strlit("@");
        assert(cand@ =~= seq!['@'] + href@.subrange(at + 1, href@.len() as int));
    }
    if check_full_user_id(cand.as_str()) {
        Option::Some(cand)
    } else {
        Option::None
    }
}

/// Where a recipient token resolved to.
#[derive(Debug)]
pub enum Resolution {
    /// An external payment address: paid over the address protocol,
    /// no chat identity involved.
    External { address: String },
    /// A fully-qualified chat identity.
    User { id: String },
    /// No unique identity: the sender is asked to write it in full.
    Unresolved,
}

pub ghost enum ResolutionView {
    External { address: Seq<char> },
    User { id: Seq<char> },
    Unresolved,
}

impl View for Resolution {
    type V = ResolutionView;

    open spec fn view(&self) -> ResolutionView {
        match self {
            Resolution::External { address } => ResolutionView::External { address: address@ },
            Resolution::User { id } => ResolutionView::User { id: id@ },
            Resolution::Unresolved => ResolutionView::Unresolved,
        }
    }
}

/// The resolver's contract: each step applies only when the earlier
/// ones failed, and the first success wins.
pub open spec fn spec_resolve(
    token: Seq<char>,
    ms: Seq<Seq<char>>,
    formatted: Option<Seq<char>>,
) -> ResolutionView {
    if is_external_address(token) {
        ResolutionView::External { address: token }
    } else if is_full_user_id(token) {
        ResolutionView::User { id: token }
    } else {
        match spec_find_user_in_room(token, ms) {
            Option::Some(m) => ResolutionView::User { id: m },
            Option::None => match formatted {
                Option::Some(f) => match spec_extract_mention(f) {
                    Option::Some(u) => ResolutionView::User { id: u },
                    Option::None => ResolutionView::Unresolved,
                },
                Option::None => ResolutionView::Unresolved,
            },
        }
    }
}

/// Resolves a recipient token against the room's joined members and
/// the optional rich-text rendering of the message.
pub fn resolve_recipient(token: &str, members: &Vec<String>, formatted: Option<&str>) -> (r:
    Resolution)
    ensures
        r@ == spec_resolve(
            token@,
            members.deep_view(),
            match formatted {
                Option::Some(f) => Option::Some(f@),
                Option::None => Option::None,
            },
        ),
{
    if parse_lnurl(token) {
        return Resolution::External { address: String::from_str(token) };
    }
    match try_to_parse_into_full_username(token) {
        Option::Some(id) => {
            return Resolution::User { id };
        },
        Option::None => {},
    }
    match find_user_in_room(token, members) {
        Option::Some(id) => {
            return Resolution::User { id };
        },
        Option::None => {},
    }
    match formatted {
        Option::Some(f) => match extract_user_from_formatted_msg_body(f) {
            Option::Some(id) => Resolution::User { id },
            Option::None => Resolution::Unresolved,
        },
        Option::None => Resolution::Unresolved,
    }
}

} // verus!
