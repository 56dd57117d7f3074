//! Verified text utilities: whitespace tokenisation, joining tokens,
//! last-line extraction, decimal parsing and decimal formatting.
//!
//! All executable functions here are specified against recursive spec
//! functions over `Seq<char>`.

use vstd::prelude::*;

verus! {

/// The whitespace characters that separate command arguments.
pub open spec fn is_ws_char(c: char) -> bool {
    c == ' ' || c == '\t' || c == '\r' || c == '\n'
}

/// Position right after the token that starts at `i`: the first position
/// `>= i` that is out of range or holds whitespace.
pub open spec fn token_end(s: Seq<char>, i: int) -> int
    decreases s.len() - i,
{
    if i < 0 || i >= s.len() || is_ws_char(s[i]) {
        i
    } else {
        token_end(s, i + 1)
    }
}

pub proof fn lemma_token_end(s: Seq<char>, i: int)
    requires
        0 <= i <= s.len(),
    ensures
        i <= token_end(s, i) <= s.len(),
        forall|k: int| i <= k < token_end(s, i) ==> !is_ws_char(s[k]),
        token_end(s, i) == s.len() || is_ws_char(s[token_end(s, i)]),
    decreases s.len() - i,
{
    if i < s.len() && !is_ws_char(s[i]) {
        lemma_token_end(s, i + 1);
    }
}

/// The whitespace-separated tokens of `s` from position `i` on.
pub open spec fn tokens_from(s: Seq<char>, i: int) -> Seq<Seq<char>>
    decreases s.len() - i,
{
    if i < 0 || i >= s.len() {
        Seq::empty()
    } else if is_ws_char(s[i]) {
        tokens_from(s, i + 1)
    } else {
        proof {
            lemma_token_end(s, i);
        }
        seq![s.subrange(i, token_end(s, i))] + tokens_from(s, token_end(s, i))
    }
}

/// The whitespace-separated tokens of `s`.
pub open spec fn tokens_of(s: Seq<char>) -> Seq<Seq<char>> {
    tokens_from(s, 0)
}

/// The tokens `ts[i..]` joined with single spaces.
pub open spec fn join_from(ts: Seq<Seq<char>>, i: int) -> Seq<char>
    decreases ts.len() - i,
{
    if i < 0 || i >= ts.len() {
        Seq::empty()
    } else if i == ts.len() - 1 {
        ts[i]
    } else {
        ts[i] + seq![' '] + join_from(ts, i + 1)
    }
}

/// The part of `s` after the last newline (all of `s` if it has none).
pub open spec fn last_line_of(s: Seq<char>) -> Seq<char>
    decreases s.len(),
{
    if s.len() == 0 {
        s
    } else if s.last() == '\n' {
        Seq::empty()
    } else {
        last_line_of(s.drop_last()).push(s.last())
    }
}

pub open spec fn is_digit_char(c: char) -> bool {
    48 <= c as u32 <= 57
}

/// The numeric value of a digit character.
pub open spec fn digit_val(c: char) -> nat {
    (c as u32 - 48) as nat
}

pub open spec fn all_digits(s: Seq<char>) -> bool {
    forall|i: int| 0 <= i < s.len() ==> is_digit_char(#[trigger] s[i])
}

/// The value of a digit string read in base ten.
pub open spec fn digits_val(s: Seq<char>) -> nat
    decreases s.len(),
{
    if s.len() == 0 {
        0
    } else {
        digits_val(s.drop_last()) * 10 + digit_val(s.last())
    }
}

/// A digit string's value only grows as more digits are appended.
pub proof fn lemma_digits_val_prefix(s: Seq<char>, i: int)
    requires
        0 <= i <= s.len(),
    ensures
        digits_val(s.subrange(0, i)) <= digits_val(s),
    decreases s.len() - i,
{
    if i < s.len() {
        assert(s.subrange(0, i + 1).drop_last() =~= s.subrange(0, i));
        assert(digits_val(s.subrange(0, i + 1)) == digits_val(s.subrange(0, i)) * 10
            + digit_val(s.subrange(0, i + 1).last()));
        lemma_digits_val_prefix(s, i + 1);
    } else {
        assert(s.subrange(0, i) =~= s);
    }
}

/// The digit character for a value below ten.
pub open spec fn digit_char(d: nat) -> char {
    if d == 0 {
        '0'
    } else if d == 1 {
        '1'
    } else if d == 2 {
        '2'
    } else if d == 3 {
        '3'
    } else if d == 4 {
        '4'
    } else if d == 5 {
        '5'
    } else if d == 6 {
        '6'
    } else if d == 7 {
        '7'
    } else if d == 8 {
        '8'
    } else {
        '9'
    }
}

/// The canonical decimal rendering of `n` (no leading zeros).
pub open spec fn dec_str(n: nat) -> Seq<char>
    decreases n,
{
    if n < 10 {
        seq![digit_char(n)]
    } else {
        dec_str(n / 10).push(digit_char(n % 10))
    }
}

/// Position of the first occurrence of `c` in `s` at or after `i`
/// (`s.len()` if there is none).
pub open spec fn first_char_at(s: Seq<char>, c: char, i: int) -> int
    decreases s.len() - i,
{
    if i < 0 || i >= s.len() {
        s.len() as int
    } else if s[i] == c {
        i
    } else {
        first_char_at(s, c, i + 1)
    }
}

pub proof fn lemma_first_char_at(s: Seq<char>, c: char, i: int)
    requires
        0 <= i <= s.len(),
    ensures
        i <= first_char_at(s, c, i) <= s.len(),
        first_char_at(s, c, i) < s.len() ==> s[first_char_at(s, c, i)] == c,
        forall|k: int| i <= k < first_char_at(s, c, i) ==> s[k] != c,
    decreases s.len() - i,
{
    if i < s.len() && s[i] != c {
        lemma_first_char_at(s, c, i + 1);
    }
}

/// How many times `c` occurs in `s`.
pub open spec fn count_char(s: Seq<char>, c: char) -> nat
    decreases s.len(),
{
    if s.len() == 0 {
        0
    } else {
        count_char(s.drop_last(), c) + if s.last() == c {
            1nat
        } else {
            0nat
        }
    }
}

/// Whether two string slices hold the same characters.
pub fn str_eq(a: &str, b: &str) -> (r: bool)
    ensures
        r == (a@ == b@),
{
    let na = a.unicode_len();
    let nb = b.unicode_len();
    if na != nb {
        return false;
    }
    let mut i: usize = 0;
    while i < na
        invariant
            na == a@.len(),
            na == b@.len(),
            0 <= i <= na,
            forall|k: int| 0 <= k < i ==> a@[k] == b@[k],
        decreases na - i,
    {
        if a.get_char(i) != b.get_char(i) {
            return false;
        }
        i = i + 1;
    }
    proof {
        assert(a@ =~= b@);
    }
    true
}

/// Whether `p` is a prefix of `s`.
pub fn str_starts_with(s: &str, p: &str) -> (r: bool)
    ensures
        r == p@.is_prefix_of(s@),
{
    let ns = s.unicode_len();
    let np = p.unicode_len();
    if np > ns {
        return false;
    }
    let mut i: usize = 0;
    while i < np
        invariant
            ns == s@.len(),
            np == p@.len(),
            np <= ns,
            0 <= i <= np,
            forall|k: int| 0 <= k < i ==> s@[k] == p@[k],
        decreases np - i,
    {
        if s.get_char(i) != p.get_char(i) {
            return false;
        }
        i = i + 1;
    }
    proof {
        assert(s@.subrange(0, p@.len() as int) =~= p@);
    }
    true
}

/// The text after the last newline of `msg_body` (all of it if it has
/// no newline): commands stand in the last line of a message.
pub fn last_line(msg_body: &str) -> (r: String)
    ensures
        r@ == last_line_of(msg_body@),
{
    let n = msg_body.unicode_len();
    let mut j: usize = n;
    while j > 0 && msg_body.get_char(j - 1) != '\n'
        invariant
            n == msg_body@.len(),
            0 <= j <= n,
            forall|k: int| j <= k < n ==> msg_body@[k] != '\n',
        decreases j,
    {
        j = j - 1;
    }
    let r = msg_body.substring_char(j, n);
    proof {
        lemma_last_line_suffix(msg_body@, j as int);
    }
    String::from_str(r)
}

proof fn lemma_last_line_suffix(s: Seq<char>, j: int)
    requires
        0 <= j <= s.len(),
        j == 0 || s[j - 1] == '\n',
        forall|k: int| j <= k < s.len() ==> s[k] != '\n',
    ensures
        last_line_of(s) == s.subrange(j, s.len() as int),
    decreases s.len(),
{
    if s.len() == 0 {
        assert(last_line_of(s) =~= s.subrange(j, s.len() as int));
    } else if s.last() == '\n' {
        assert(j == s.len());
        assert(last_line_of(s) =~= s.subrange(j, s.len() as int));
    } else {
        assert(j < s.len());
        lemma_last_line_suffix(s.drop_last(), j);
        assert(last_line_of(s) == last_line_of(s.drop_last()).push(s.last()));
        assert(s.drop_last().subrange(j, s.len() - 1) =~= s.subrange(j, s.len() - 1));
        assert(s.subrange(j, s.len() - 1).push(s.last()) =~= s.subrange(j, s.len() as int));
    }
}

/// Position right after the token that starts at `start`.
fn scan_token_end(s: &str, start: usize) -> (j: usize)
    requires
        start < s@.len(),
        !is_ws_char(s@[start as int]),
    ensures
        j == token_end(s@, start as int),
{
    let n = s.unicode_len();
    let mut j: usize = start + 1;
    while j < n
        invariant
            n == s@.len(),
            start < j <= n,
            token_end(s@, start as int) == token_end(s@, j as int),
        decreases n - j,
    {
        let cj = s.get_char(j);
        if cj == ' ' || cj == '\t' || cj == '\r' || cj == '\n' {
            proof {
                assert(token_end(s@, j as int) == j as int);
            }
            return j;
        }
        j = j + 1;
    }
    j
}

/// Splits `s` into its whitespace-separated tokens.
pub fn split_ws(s: &str) -> (r: Vec<String>)
    ensures
        r.deep_view() == tokens_of(s@),
{
    let n = s.unicode_len();
    let mut r: Vec<String> = Vec::new();
    let mut i: usize = 0;
    proof {
        assert(r.deep_view() + tokens_from(s@, 0) =~~= tokens_of(s@));
    }
    while i < n
        invariant
            n == s@.len(),
            0 <= i <= n,
            r.deep_view() + tokens_from(s@, i as int) =~~= tokens_of(s@),
        decreases n - i,
    {
        let c = s.get_char(i);
        if c == ' ' || c == '\t' || c == '\r' || c == '\n' {
            i = i + 1;
        } else {
            let ghost i0 = i as int;
            proof {
                lemma_token_end(s@, i0);
            }
            let j = scan_token_end(s, i);
            let tok = s.substring_char(i, j);
            let tok_string = String::from_str(tok);
            let ghost old_r = r.deep_view();
            r.push(tok_string);
            proof {
                assert(r.deep_view() =~~= old_r.push(s@.subrange(i0, j as int)));
                assert(tokens_from(s@, i0) == seq![s@.subrange(i0, token_end(s@, i0))]
                    + tokens_from(s@, token_end(s@, i0)));
                assert(r.deep_view() + tokens_from(s@, j as int) =~~= tokens_of(s@));
            }
            i = j;
        }
    }
    r
}

/// Joins `tokens[from..]` with single spaces.
pub fn join_tokens_from(tokens: &Vec<String>, from: usize) -> (r: String)
    ensures
        r@ == join_from(tokens.deep_view(), from as int),
{
    let n = tokens.len();
    if from >= n {
        return String::new();
    }
    let mut i: usize = n - 1;
    let mut acc = String::from_str(tokens[i].as_str());
    while i > from
        invariant
            n == tokens@.len(),
            from <= i < n,
            acc@ == join_from(tokens.deep_view(), i as int),
        decreases i,
    {
        i = i - 1;
        let mut part = String::from_str(tokens[i].as_str());
        part.append(" ");
        part.append(acc.as_str());
        proof {
            reveal_strlit(" ");
            assert(part@ =~= tokens.deep_view()[i as int] + seq![' '] + join_from(
                tokens.deep_view(),
                i + 1,
            ));
        }
        acc = part;
    }
    acc
}

/// Parses a base-ten unsigned integer; rejects empty and non-digit
/// input and values that do not fit in a `u64`.
pub fn parse_u64(s: &str) -> (r: Option<u64>)
    ensures
        match r {
            Option::Some(v) => s@.len() > 0 && all_digits(s@) && v as nat == digits_val(s@),
            Option::None => s@.len() == 0 || !all_digits(s@) || digits_val(s@) > u64::MAX,
        },
{
    let n = s.unicode_len();
    if n == 0 {
        return Option::None;
    }
    let mut acc: u64 = 0;
    let mut i: usize = 0;
    while i < n
        invariant
            n == s@.len(),
            0 <= i <= n,
            forall|k: int| 0 <= k < i ==> is_digit_char(#[trigger] s@[k]),
            acc as nat == digits_val(s@.subrange(0, i as int)),
        decreases n - i,
    {
        let c = s.get_char(i);
        let cv = c as u32;
        if cv < 48 || cv > 57 {
            return Option::None;
        }
        let d = (cv - 48) as u64;
        if acc > (u64::MAX - d) / 10 {
            proof {
                lemma_mul_step_overflows(acc, d);
                assert(s@.subrange(0, i + 1).drop_last() =~= s@.subrange(0, i as int));
                assert(digits_val(s@.subrange(0, i + 1)) > u64::MAX);
                lemma_digits_val_prefix(s@, i + 1);
            }
            return Option::None;
        }
        proof {
            lemma_mul_step_fits(acc, d);
            assert(s@.subrange(0, i + 1).drop_last() =~= s@.subrange(0, i as int));
        }
        acc = acc * 10 + d;
        i = i + 1;
    }
    proof {
        assert(s@.subrange(0, n as int) =~= s@);
    }
    Option::Some(acc)
}

/// Whether `a * k + d` stays within `u64` range, decided by comparing
/// `a` against `(u64::MAX - d) / k`.
pub proof fn lemma_scale_add(a: u64, d: u64, k: u64)
    requires
        k > 0,
    ensures
        a as int > (u64::MAX - d) / (k as int) ==> a * k + d > u64::MAX,
        a as int <= (u64::MAX - d) / (k as int) ==> a * k + d <= u64::MAX,
{
    let m = (u64::MAX - d) as int;
    let ki = k as int;
    let ai = a as int;
    vstd::arithmetic::div_mod::lemma_fundamental_div_mod(m, ki);
    assert(m == ki * (m / ki) + m % ki);
    if ai > m / ki {
        assert(ai * ki >= ((m / ki) + 1) * ki) by (nonlinear_arith)
            requires
                ai >= m / ki + 1,
                ki > 0,
        ;
        assert(((m / ki) + 1) * ki == ki * (m / ki) + ki) by (nonlinear_arith);
    } else {
        assert(ai * ki <= (m / ki) * ki) by (nonlinear_arith)
            requires
                ai <= m / ki,
                ki > 0,
        ;
        assert((m / ki) * ki == ki * (m / ki)) by (nonlinear_arith);
    }
}

proof fn lemma_mul_step_overflows(acc: u64, d: u64)
    requires
        d <= 9,
        acc > (u64::MAX - d) / 10,
    ensures
        acc * 10 + d > u64::MAX,
{
    lemma_scale_add(acc, d, 10);
}

proof fn lemma_mul_step_fits(acc: u64, d: u64)
    requires
        d <= 9,
        acc <= (u64::MAX - d) / 10,
    ensures
        acc * 10 + d <= u64::MAX,
{
    lemma_scale_add(acc, d, 10);
}

/// `c` does not occur in `s` exactly when its count is zero.
pub proof fn lemma_count_char_zero(s: Seq<char>, c: char)
    ensures
        (count_char(s, c) == 0) <==> (forall|k: int| 0 <= k < s.len() ==> s[k] != c),
    decreases s.len(),
{
    if s.len() > 0 {
        lemma_count_char_zero(s.drop_last(), c);
        assert(forall|k: int| 0 <= k < s.len() - 1 ==> s[k] == s.drop_last()[k]);
    }
}

/// Counts the occurrences of `c` in `s`.
pub fn char_count(s: &str, c: char) -> (r: usize)
    ensures
        r == count_char(s@, c),
{
    let n = s.unicode_len();
    let mut r: usize = 0;
    let mut i: usize = 0;
    proof {
        assert(s@.subrange(0, 0) =~= Seq::<char>::empty());
    }
    while i < n
        invariant
            n == s@.len(),
            0 <= i <= n,
            r <= i,
            r == count_char(s@.subrange(0, i as int), c),
        decreases n - i,
    {
        proof {
            assert(s@.subrange(0, i + 1).drop_last() =~= s@.subrange(0, i as int));
        }
        if s.get_char(i) == c {
            r = r + 1;
        }
        i = i + 1;
    }
    proof {
        assert(s@.subrange(0, n as int) =~= s@);
    }
    r
}

/// Position of the first occurrence of `c` in `s` (its length if none).
pub fn find_char(s: &str, c: char) -> (r: usize)
    ensures
        r == first_char_at(s@, c, 0),
{
    let n = s.unicode_len();
    let mut i: usize = 0;
    while i < n
        invariant
            n == s@.len(),
            0 <= i <= n,
            first_char_at(s@, c, 0) == first_char_at(s@, c, i as int),
        decreases n - i,
    {
        if s.get_char(i) == c {
            return i;
        }
        i = i + 1;
    }
    i
}

/// The value in hundredths of a decimal token: digits with an optional
/// dot followed by one or two fraction digits.
pub open spec fn parse_cents_spec(s: Seq<char>) -> Option<u64> {
    let dot = first_char_at(s, '.', 0);
    if count_char(s, '.') == 0 {
        if s.len() > 0 && all_digits(s) && digits_val(s) * 100 <= u64::MAX {
            Option::Some((digits_val(s) * 100) as u64)
        } else {
            Option::None
        }
    } else if count_char(s, '.') == 1 {
        let ip = s.subrange(0, dot);
        let fp = s.subrange(dot + 1, s.len() as int);
        if ip.len() > 0 && all_digits(ip) && 1 <= fp.len() <= 2 && all_digits(fp) {
            let cents = digits_val(ip) * 100 + if fp.len() == 1 {
                digits_val(fp) * 10
            } else {
                digits_val(fp)
            };
            if cents <= u64::MAX {
                Option::Some(cents as u64)
            } else {
                Option::None
            }
        } else {
            Option::None
        }
    } else {
        Option::None
    }
}

/// Parses a non-negative decimal amount into hundredths.
pub fn parse_cents(s: &str) -> (r: Option<u64>)
    ensures
        r == parse_cents_spec(s@),
{
    let n = s.unicode_len();
    let dots = char_count(s, '.');
    if dots == 0 {
        match parse_u64(s) {
            Option::Some(v) => {
                proof {
                    lemma_scale_add(v, 0, 100);
                }
                if v <= u64::MAX / 100 {
                    Option::Some(v * 100)
                } else {
                    Option::None
                }
            },
            Option::None => Option::None,
        }
    } else if dots == 1 {
        let dot = find_char(s, '.');
        proof {
            lemma_first_char_at(s@, '.', 0);
            if dot == n {
                lemma_count_char_zero(s@, '.');
                assert(false);
            }
        }
        let ip = s.substring_char(0, dot);
        let fp = s.substring_char(dot + 1, n);
        let flen = n - (dot + 1);
        if flen < 1 || flen > 2 {
            return Option::None;
        }
        let ipv = match parse_u64(ip) {
            Option::Some(v) => v,
            Option::None => {
                return Option::None;
            },
        };
        let fpv = match parse_u64(fp) {
            Option::Some(v) => v,
            Option::None => {
                return Option::None;
            },
        };
        proof {
            if fp@.len() == 2 {
                assert(fp@.drop_last().len() == 1);
                assert(digits_val(fp@.drop_last()) == digits_val(fp@.drop_last().drop_last()) * 10
                    + digit_val(fp@.drop_last().last()));
                assert(digits_val(fp@) <= 99);
            } else {
                assert(is_digit_char(fp@[0]));
                assert(digits_val(fp@) == digits_val(fp@.drop_last()) * 10 + digit_val(fp@.last()));
                assert(digits_val(fp@) <= 9);
            }
        }
        let frac: u64 = if flen == 1 {
            fpv * 10
        } else {
            fpv
        };
        proof {
            lemma_scale_add(ipv, frac, 100);
        }
        if ipv > (u64::MAX - frac) / 100 {
            return Option::None;
        }
        Option::Some(ipv * 100 + frac)
    } else {
        Option::None
    }
}

/// Decimal rendering of a value in hundredths, with two fraction
/// digits (`1234` renders as `12.34`).
pub open spec fn cents_str(c: nat) -> Seq<char> {
    dec_str(c / 100) + seq!['.', digit_char((c % 100) / 10), digit_char(c % 10)]
}

/// Renders a value in hundredths with two fraction digits.
pub fn cents_to_dec(c: u64) -> (r: String)
    ensures
        r@ == cents_str(c as nat),
{
    let mut s = u64_to_dec(c / 100);
    s.append(".");
    s.append(digit_str((c % 100) / 10));
    s.append(digit_str(c % 10));
    proof {
        reveal_strlit(".");
        assert((c % 100) / 10 < 10);
        assert(c % 10 < 10);
        assert((c % 10) as nat == (c as nat) % 10);
        assert(((c % 100) / 10) as nat == ((c as nat) % 100) / 10);
        assert((c / 100) as nat == (c as nat) / 100);
        assert(s@ =~= cents_str(c as nat));
    }
    s
}

/// One-character string for a digit value.
fn digit_str(d: u64) -> (r: &'static str)
    requires
        d < 10,
    ensures
        r@ == seq![digit_char(d as nat)],
{
    proof {
        reveal_strlit("0");
        reveal_strlit("1");
        reveal_strlit("2");
        reveal_strlit("3");
        reveal_strlit("4");
        reveal_strlit("5");
        reveal_strlit("6");
        reveal_strlit("7");
        reveal_strlit("8");
        reveal_strlit("9");
    }
    let r: &'static str = if d == 0 {
        "0"
    } else if d == 1 {
        "1"
    } else if d == 2 {
        "2"
    } else if d == 3 {
        "3"
    } else if d == 4 {
        "4"
    } else if d == 5 {
        "5"
    } else if d == 6 {
        "6"
    } else if d == 7 {
        "7"
    } else if d == 8 {
        "8"
    } else {
        "9"
    };
    proof {
        assert(r@ =~= seq![digit_char(d as nat)]);
    }
    r
}

/// Renders `n` in base ten.
pub fn u64_to_dec(n: u64) -> (r: String)
    ensures
        r@ == dec_str(n as nat),
    decreases n,
{
    if n < 10 {
        String::from_str(digit_str(n))
    } else {
        let mut s = u64_to_dec(n / 10);
        s.append(digit_str(n % 10));
        proof {
            assert(dec_str((n / 10) as nat) + seq![digit_char((n % 10) as nat)] =~= dec_str(
                n as nat,
            ));
        }
        s
    }
}

} // verus!
