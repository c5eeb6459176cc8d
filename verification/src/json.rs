//! Primitives for the JSON wire form the service speaks.
//!
//! The payloads this library exchanges are flat JSON objects whose values are
//! strings, unsigned decimal numbers, booleans and nested objects of the same
//! kind. Both directions are modelled at the level of character sequences:
//! a printer builds the canonical text (no extra whitespace, fields in struct
//! order), and a reader peels literals, string values and numbers off the
//! front of the text. String values are taken verbatim up to the closing
//! quote; the payload fields of this API are hex strings and decimal strings,
//! which contain no quote character.

use vstd::prelude::*;
use vstd::string::*;

verus! {

pub open spec fn is_digit(c: char) -> bool {
    '0' <= c && c <= '9'
}

pub open spec fn digit_val(c: char) -> nat {
    if c == '0' {
        0
    } else if c == '1' {
        1
    } else if c == '2' {
        2
    } else if c == '3' {
        3
    } else if c == '4' {
        4
    } else if c == '5' {
        5
    } else if c == '6' {
        6
    } else if c == '7' {
        7
    } else if c == '8' {
        8
    } else {
        9
    }
}

pub open spec fn spec_digit_char(d: nat) -> char {
    if d == 0 {
        '0'
    } else if d == 1 {
        '1'
    } else if d == 2 {
        '2'
    } else if d == 3 {
        '3'
    } else if d == 4 {
        '4'
    } else if d == 5 {
        '5'
    } else if d == 6 {
        '6'
    } else if d == 7 {
        '7'
    } else if d == 8 {
        '8'
    } else {
        '9'
    }
}

/// The decimal digits of `n`, most significant first.
pub open spec fn spec_num(n: nat) -> Seq<char>
    decreases n,
{
    if n < 10 {
        seq![spec_digit_char(n)]
    } else {
        spec_num(n / 10).push(spec_digit_char(n % 10))
    }
}

pub open spec fn spec_bool(b: bool) -> Seq<char> {
    if b {
        "true"@
    } else {
        "false"@
    }
}

/// True when `s` contains no double-quote character.
pub open spec fn no_quote(s: Seq<char>) -> bool {
    forall|i: int| 0 <= i < s.len() ==> s[i] != '"'
}

/// True when `needle` occurs as a contiguous run inside `hay`.
pub open spec fn contains_sub(hay: Seq<char>, needle: Seq<char>) -> bool {
    exists|i: int|
        0 <= i && i + needle.len() <= hay.len() && #[trigger] hay.subrange(i, i + needle.len())
            == needle
}

/// Consume the exact literal `l` from the front of `s`.
pub open spec fn sp_lit(s: Seq<char>, l: Seq<char>) -> Option<Seq<char>> {
    if l.len() <= s.len() && s.take(l.len() as int) == l {
        Some(s.skip(l.len() as int))
    } else {
        None
    }
}

/// Index of the first double quote of `s`, if any.
pub open spec fn sp_quote_idx(s: Seq<char>) -> Option<int>
    decreases s.len(),
{
    if s.len() == 0 {
        None
    } else if s[0] == '"' {
        Some(0)
    } else {
        match sp_quote_idx(s.skip(1)) {
            None => None,
            Some(j) => Some(j + 1),
        }
    }
}

/// Take a string value: everything up to, and not including, the closing quote.
pub open spec fn sp_take_string(s: Seq<char>) -> Option<(Seq<char>, Seq<char>)> {
    match sp_quote_idx(s) {
        None => None,
        Some(j) => Some((s.take(j), s.skip(j))),
    }
}

/// Accumulate decimal digits from the front of `s` onto `acc`;
/// fails when the value would not fit in a `u64`.
pub open spec fn sp_num_acc(s: Seq<char>, acc: u64) -> Option<(u64, Seq<char>)>
    decreases s.len(),
{
    if s.len() > 0 && is_digit(s[0]) {
        if acc * 10 + digit_val(s[0]) <= u64::MAX {
            sp_num_acc(s.skip(1), (acc * 10 + digit_val(s[0])) as u64)
        } else {
            None
        }
    } else {
        Some((acc, s))
    }
}

/// Read a decimal `u64` from the front of `s`, by the JSON number grammar for
/// unsigned integers: a lone `0`, or a nonzero digit followed by digits.
pub open spec fn sp_num(s: Seq<char>) -> Option<(u64, Seq<char>)> {
    if s.len() > 0 && s[0] == '0' {
        Some((0, s.skip(1)))
    } else if s.len() > 0 && is_digit(s[0]) {
        sp_num_acc(s, 0)
    } else {
        None
    }
}

pub open spec fn is_ws(c: char) -> bool {
    c == ' ' || c == '\t' || c == '\n' || c == '\r'
}

/// Drop insignificant whitespace from the front of `s`.
pub open spec fn sp_ws(s: Seq<char>) -> Seq<char>
    decreases s.len(),
{
    if s.len() > 0 && is_ws(s[0]) {
        sp_ws(s.skip(1))
    } else {
        s
    }
}

/// A quoted string: the opening quote, the value up to the closing quote, and
/// the closing quote itself are consumed.
pub open spec fn sp_quoted(s: Seq<char>) -> Option<(Seq<char>, Seq<char>)> {
    if s.len() > 0 && s[0] == '"' {
        match sp_take_string(s.skip(1)) {
            None => None,
            Some((v, r)) => if r.len() > 0 {
                Some((v, r.skip(1)))
            } else {
                None
            },
        }
    } else {
        None
    }
}

// ---------------------------------------------------------------------------
// Executable mirrors
// ---------------------------------------------------------------------------

fn digit_str(d: u64) -> (r: &'static str)
    requires
        d < 10,
    ensures
        r@ == seq![spec_digit_char(d as nat)],
{
    proof {
        reveal_strlit("0");
        reveal_strlit("1");
        reveal_strlit("2");
        reveal_strlit("3");
        reveal_strlit("4");
        reveal_strlit("5");
        reveal_strlit("6");
        reveal_strlit("7");
        reveal_strlit("8");
        reveal_strlit("9");
    }
    let r = match d {
        0 => "0",
        1 => "1",
        2 => "2",
        3 => "3",
        4 => "4",
        5 => "5",
        6 => "6",
        7 => "7",
        8 => "8",
        _ => "9",
    };
    proof {
        assert(r@ =~= seq![spec_digit_char(d as nat)]);
    }
    r
}

/// The decimal text of `n`.
pub fn num_to_string(n: u64) -> (r: String)
    ensures
        r@ == spec_num(n as nat),
    decreases n,
{
    if n < 10 {
        String::from_str(digit_str(n))
    } else {
        let mut s = num_to_string(n / 10);
        s.append(digit_str(n % 10));
        proof {
            assert(s@ =~= spec_num((n / 10) as nat).push(spec_digit_char((n % 10) as nat)));
        }
        s
    }
}

/// Consume the literal `l` from the front of `s`.
pub fn p_lit<'a>(s: &'a str, l: &str) -> (r: Option<&'a str>)
    ensures
        match r {
            Some(rest) => sp_lit(s@, l@) == Some(rest@),
            None => sp_lit(s@, l@) is None,
        },
{
    let sl = s.unicode_len();
    let ll = l.unicode_len();
    if ll > sl {
        return None;
    }
    let mut j: usize = 0;
    while j < ll
        invariant
            0 <= j <= ll <= sl,
            sl == s@.len(),
            ll == l@.len(),
            forall|k: int| 0 <= k < j ==> s@[k] == l@[k],
        decreases ll - j,
    {
        if s.get_char(j) != l.get_char(j) {
            proof {
                assert(s@.take(ll as int)[j as int] != l@[j as int]);
            }
            return None;
        }
        j += 1;
    }
    proof {
        assert(s@.take(ll as int) =~= l@);
        assert(s@.subrange(ll as int, sl as int) =~= s@.skip(ll as int));
    }
    Some(s.substring_char(ll, sl))
}

/// Take a string value up to the closing quote; the rest starts at the quote.
pub fn p_take_string<'a>(s: &'a str) -> (r: Option<(String, &'a str)>)
    ensures
        match r {
            Some(v) => sp_take_string(s@) == Some((v.0@, v.1@)),
            None => sp_take_string(s@) is None,
        },
{
    let len = s.unicode_len();
    let mut j: usize = 0;
    proof {
        assert(s@.skip(0) =~= s@);
    }
    while j < len
        invariant
            0 <= j <= len,
            len == s@.len(),
            forall|k: int| 0 <= k < j ==> s@[k] != '"',
            sp_quote_idx(s@) == match sp_quote_idx(s@.skip(j as int)) {
                None => None::<int>,
                Some(k) => Some(k + j),
            },
        decreases len - j,
    {
        if s.get_char(j) == '"' {
            proof {
                assert(s@.skip(j as int)[0] == '"');
                assert(sp_quote_idx(s@) == Some(j as int));
                assert(s@.subrange(0, j as int) =~= s@.take(j as int));
                assert(s@.subrange(j as int, len as int) =~= s@.skip(j as int));
            }
            let v = s.substring_char(0, j).to_owned();
            return Some((v, s.substring_char(j, len)));
        }
        proof {
            assert(s@.skip(j as int)[0] == s@[j as int]);
            assert(s@.skip(j as int).skip(1) =~= s@.skip(j as int + 1));
        }
        j += 1;
    }
    proof {
        assert(s@.skip(j as int).len() == 0);
        assert(sp_quote_idx(s@) is None);
    }
    None
}

fn is_ws_char(c: char) -> (b: bool)
    ensures
        b == is_ws(c),
{
    c == ' ' || c == '\t' || c == '\n' || c == '\r'
}

/// Drop insignificant whitespace from the front of `s`.
pub fn p_ws<'a>(s: &'a str) -> (r: &'a str)
    ensures
        r@ == sp_ws(s@),
{
    let len = s.unicode_len();
    let mut j: usize = 0;
    proof {
        assert(s@.skip(0) =~= s@);
    }
    while j < len
        invariant
            0 <= j <= len,
            len == s@.len(),
            sp_ws(s@) == sp_ws(s@.skip(j as int)),
        decreases len - j,
    {
        proof {
            assert(s@.skip(j as int)[0] == s@[j as int]);
        }
        if !is_ws_char(s.get_char(j)) {
            let r = s.substring_char(j, len);
            proof {
                assert(r@ =~= s@.skip(j as int));
            }
            return r;
        }
        proof {
            assert(s@.skip(j as int).skip(1) =~= s@.skip(j as int + 1));
        }
        j += 1;
    }
    proof {
        assert(s@.skip(len as int).len() == 0);
    }
    let r = s.substring_char(len, len);
    proof {
        assert(r@ =~= s@.skip(len as int));
    }
    r
}

/// A quoted string with both quotes consumed.
pub fn p_quoted<'a>(s: &'a str) -> (r: Option<(String, &'a str)>)
    ensures
        match r {
            Some(v) => sp_quoted(s@) == Some((v.0@, v.1@)),
            None => sp_quoted(s@) is None,
        },
{
    let len = s.unicode_len();
    if len == 0 {
        return None;
    }
    if s.get_char(0) != '"' {
        return None;
    }
    let tail = s.substring_char(1, len);
    proof {
        assert(tail@ =~= s@.skip(1));
    }
    match p_take_string(tail) {
        None => None,
        Some((v, rest)) => {
            let rlen = rest.unicode_len();
            if rlen == 0 {
                None
            } else {
                let out = rest.substring_char(1, rlen);
                proof {
                    assert(out@ =~= rest@.skip(1));
                }
                Some((v, out))
            }
        },
    }
}

fn digit_of(c: char) -> (r: Option<u64>)
    ensures
        r is Some <==> is_digit(c),
        r is Some ==> r->0 == digit_val(c) && r->0 < 10,
{
    match c {
        '0' => Some(0),
        '1' => Some(1),
        '2' => Some(2),
        '3' => Some(3),
        '4' => Some(4),
        '5' => Some(5),
        '6' => Some(6),
        '7' => Some(7),
        '8' => Some(8),
        '9' => Some(9),
        _ => None,
    }
}

/// Read a decimal `u64` from the front of `s`.
pub fn p_u64<'a>(s: &'a str) -> (r: Option<(u64, &'a str)>)
    ensures
        match r {
            Some(v) => sp_num(s@) == Some((v.0, v.1@)),
            None => sp_num(s@) is None,
        },
{
    let len = s.unicode_len();
    if len == 0 {
        return None;
    }
    let c0 = s.get_char(0);
    if c0 == '0' {
        let rest = s.substring_char(1, len);
        proof {
            assert(rest@ =~= s@.skip(1));
        }
        return Some((0, rest));
    }
    if digit_of(c0).is_none() {
        return None;
    }
    proof {
        assert(s@[0] != '0');
    }
    let mut acc: u64 = 0;
    let mut j: usize = 0;
    proof {
        assert(s@.skip(0) =~= s@);
    }
    while j < len
        invariant
            0 <= j <= len,
            len == s@.len(),
            len > 0 && is_digit(s@[0]) && s@[0] != '0',
            sp_num_acc(s@, 0) == sp_num_acc(s@.skip(j as int), acc),
        decreases len - j,
    {
        let c = s.get_char(j);
        match digit_of(c) {
            None => {
                proof {
                    assert(s@.skip(j as int)[0] == s@[j as int]);
                }
                let rest = s.substring_char(j, len);
                proof {
                    assert(rest@ =~= s@.skip(j as int));
                }
                return Some((acc, rest));
            },
            Some(d) => {
                proof {
                    assert(s@.skip(j as int)[0] == s@[j as int]);
                }
                if acc < 1844674407370955161u64 || (acc == 1844674407370955161u64 && d <= 5) {
                    proof {
                        assert(s@.skip(j as int).skip(1) =~= s@.skip(j as int + 1));
                    }
                    acc = acc * 10 + d;
                    j += 1;
                } else {
                    proof {
                        assert(acc * 10 + digit_val(s@[j as int]) > u64::MAX);
                    }
                    return None;
                }
            },
        }
    }
    proof {
        assert(s@.skip(j as int).len() == 0);
    }
    let rest = s.substring_char(len, len);
    proof {
        assert(rest@ =~= s@.skip(len as int));
    }
    Some((acc, rest))
}

// ---------------------------------------------------------------------------
// Laws of the reader over the printer
// ---------------------------------------------------------------------------

proof fn lemma_quote_idx(v: Seq<char>, rest: Seq<char>)
    requires
        no_quote(v),
        rest.len() > 0,
        rest[0] == '"',
    ensures
        sp_quote_idx(v + rest) == Some(v.len() as int),
    decreases v.len(),
{
    if v.len() == 0 {
        assert(v + rest =~= rest);
    } else {
        assert((v + rest)[0] == v[0]);
        assert((v + rest).skip(1) =~= v.skip(1) + rest);
        lemma_quote_idx(v.skip(1), rest);
    }
}

/// A quote-free value followed by its closing quote reads back exactly.
pub proof fn lemma_peel_string(v: Seq<char>, rest: Seq<char>)
    requires
        no_quote(v),
        rest.len() > 0,
        rest[0] == '"',
    ensures
        sp_take_string(v + rest) == Some((v, rest)),
{
    lemma_quote_idx(v, rest);
    assert((v + rest).take(v.len() as int) =~= v);
    assert((v + rest).skip(v.len() as int) =~= rest);
}

pub open spec fn pow10(k: nat) -> nat
    decreases k,
{
    if k == 0 {
        1
    } else {
        10 * pow10((k - 1) as nat)
    }
}

pub proof fn lemma_spec_num_digits(n: nat)
    ensures
        spec_num(n).len() >= 1,
        forall|i: int| 0 <= i < spec_num(n).len() ==> is_digit(#[trigger] spec_num(n)[i]),
    decreases n,
{
    if n < 10 {
    } else {
        lemma_spec_num_digits(n / 10);
        assert(forall|i: int|
            0 <= i < spec_num(n / 10).len() ==> #[trigger] spec_num(n)[i] == spec_num(n / 10)[i]);
    }
}

proof fn lemma_num_acc_run(n: nat, acc: u64, rest: Seq<char>)
    requires
        n <= u64::MAX,
        acc * pow10(spec_num(n).len() as nat) + n <= u64::MAX,
    ensures
        sp_num_acc(spec_num(n) + rest, acc) == sp_num_acc(
            rest,
            ((acc * pow10(spec_num(n).len() as nat) + n) as u64),
        ),
    decreases n,
{
    lemma_spec_num_digits(n);
    if n < 10 {
        let s = spec_num(n) + rest;
        assert(s[0] == spec_digit_char(n));
        assert(digit_val(spec_digit_char(n)) == n);
        assert(pow10(0) == 1);
        assert(pow10(1) == 10);
        assert(acc * 10 + n <= u64::MAX);
        assert(s.skip(1) =~= rest);
    } else {
        let d = (n % 10) as nat;
        let m = n / 10;
        let lm = spec_num(m).len() as nat;
        assert(spec_num(n) =~= spec_num(m) + seq![spec_digit_char(d)]);
        assert(spec_num(n).len() == lm + 1);
        assert(pow10(lm + 1) == 10 * pow10(lm));
        assert(n == m * 10 + d);
        let mid = acc * pow10(lm) + m;
        assert(mid * 10 + d == acc * (10 * pow10(lm)) + (m * 10 + d)) by (nonlinear_arith)
            requires
                mid == acc * pow10(lm) + m,
        ;
        assert(acc * pow10(lm + 1) + n == mid * 10 + d) by {
            assert(acc * pow10(lm + 1) == acc * (10 * pow10(lm)));
        }
        assert(pow10(lm) >= 1) by {
            lemma_pow10_pos(lm);
        }
        assert(mid <= mid * 10 + d) by (nonlinear_arith)
            requires
                mid >= 0,
                d >= 0,
        ;
        assert(m <= mid) by (nonlinear_arith)
            requires
                acc >= 0,
                pow10(lm) >= 1,
                mid == acc * pow10(lm) + m,
        ;
        lemma_num_acc_run(m, acc, seq![spec_digit_char(d)] + rest);
        assert(spec_num(n) + rest =~= spec_num(m) + (seq![spec_digit_char(d)] + rest));
        let s2 = seq![spec_digit_char(d)] + rest;
        assert(s2[0] == spec_digit_char(d));
        assert(digit_val(spec_digit_char(d)) == d);
        assert(is_digit(spec_digit_char(d)));
        assert((mid as u64) * 10 + d <= u64::MAX);
        assert(s2.skip(1) =~= rest);
    }
}

proof fn lemma_pow10_pos(k: nat)
    ensures
        pow10(k) >= 1,
    decreases k,
{
    if k > 0 {
        lemma_pow10_pos((k - 1) as nat);
    }
}

proof fn lemma_spec_num_first(n: nat)
    requires
        n > 0,
    ensures
        spec_num(n)[0] != '0',
    decreases n,
{
    if n < 10 {
    } else {
        lemma_spec_num_first(n / 10);
        assert(spec_num(n)[0] == spec_num(n / 10)[0]);
    }
}

/// The decimal text of `n`, followed by anything that does not begin with a
/// digit, reads back as exactly `n`.
pub proof fn lemma_peel_num(n: u64, rest: Seq<char>)
    requires
        rest.len() == 0 || !is_digit(rest[0]),
    ensures
        sp_num(spec_num(n as nat) + rest) == Some((n, rest)),
{
    lemma_spec_num_digits(n as nat);
    let s = spec_num(n as nat) + rest;
    assert(s[0] == spec_num(n as nat)[0]);
    assert(is_digit(s[0]));
    if n == 0 {
        assert(spec_num(0) =~= seq!['0']);
        assert(s[0] == '0');
        assert(s.skip(1) =~= rest);
    } else {
        lemma_spec_num_first(n as nat);
        assert(s[0] != '0');
        lemma_pow10_pos(spec_num(n as nat).len() as nat);
        assert(0 * pow10(spec_num(n as nat).len() as nat) + n as nat == n as nat)
            by (nonlinear_arith);
        lemma_num_acc_run(n as nat, 0, rest);
        if rest.len() > 0 {
            assert(sp_num_acc(rest, n) == Some((n, rest)));
        } else {
            assert(sp_num_acc(rest, n) == Some((n, rest)));
        }
    }
}

/// A quote-free value printed between quotes reads back exactly, with both
/// quotes consumed.
pub proof fn lemma_peel_quoted(v: Seq<char>, rest: Seq<char>)
    requires
        no_quote(v),
    ensures
        sp_quoted("\""@ + (v + ("\""@ + rest))) == Some((v, rest)),
{
    reveal_strlit("\"");
    let s = "\""@ + (v + ("\""@ + rest));
    assert(s[0] == '"');
    assert(s.skip(1) =~= v + ("\""@ + rest));
    assert(("\""@ + rest).len() > 0);
    assert(("\""@ + rest)[0] == '"');
    lemma_peel_string(v, "\""@ + rest);
    assert(("\""@ + rest).skip(1) =~= rest);
}

} // verus!
