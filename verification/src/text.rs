//! Plain-text building blocks: decimal rendering of integers, string
//! comparison and prefix tests, and decimal parsing, each specified over
//! sequences of characters.

use vstd::prelude::*;
use vstd::string::StrSliceExecFns;
use vstd::string::StringExecFns;

verus! {

/// The character for one decimal digit.
pub open spec fn digit_char(d: nat) -> char {
    if d == 0 {
        '0'
    } else if d == 1 {
        '1'
    } else if d == 2 {
        '2'
    } else if d == 3 {
        '3'
    } else if d == 4 {
        '4'
    } else if d == 5 {
        '5'
    } else if d == 6 {
        '6'
    } else if d == 7 {
        '7'
    } else if d == 8 {
        '8'
    } else {
        '9'
    }
}

/// The decimal rendering of a natural number, without leading zeroes
/// (except for the single digit of zero itself).
pub open spec fn dec_nat(n: nat) -> Seq<char>
    decreases n,
{
    if n < 10 {
        seq![digit_char(n)]
    } else {
        dec_nat(n / 10) + seq![digit_char(n % 10)]
    }
}

/// The decimal rendering of an integer: a minus sign before the magnitude
/// for negative values.
pub open spec fn dec_int(n: int) -> Seq<char> {
    if n < 0 {
        seq!['-'] + dec_nat((-n) as nat)
    } else {
        dec_nat(n as nat)
    }
}

fn digit_str(d: u64) -> (r: &'static str)
    requires
        d < 10,
    ensures
        r@ =~= seq![digit_char(d as nat)],
{
    proof {
        reveal_strlit("0");
        reveal_strlit("1");
        reveal_strlit("2");
        reveal_strlit("3");
        reveal_strlit("4");
        reveal_strlit("5");
        reveal_strlit("6");
        reveal_strlit("7");
        reveal_strlit("8");
        reveal_strlit("9");
    }
    match d {
        0 => "0",
        1 => "1",
        2 => "2",
        3 => "3",
        4 => "4",
        5 => "5",
        6 => "6",
        7 => "7",
        8 => "8",
        _ => "9",
    }
}

/// Renders an unsigned value in decimal.
pub fn u64_to_string(n: u64) -> (r: String)
    ensures
        r@ == dec_nat(n as nat),
    decreases n,
{
    let ds = digit_str(n % 10);
    if n < 10 {
        let r = ds.to_owned();
        assert(r@ =~= dec_nat(n as nat));
        r
    } else {
        let mut r = u64_to_string(n / 10);
        r.append(ds);
        assert(r@ =~= dec_nat(n as nat));
        r
    }
}

/// Renders a signed value in decimal, with a leading minus sign when negative.
pub fn i64_to_string(n: i64) -> (r: String)
    ensures
        r@ == dec_int(n as int),
{
    if n >= 0 {
        u64_to_string(n as u64)
    } else {
        // Negate without overflowing on the smallest value.
        let mag: u64 = ((-(n + 1)) as u64) + 1;
        assert(mag as int == -(n as int));
        let mut r = "-".to_owned();
        let mag_str = u64_to_string(mag);
        r.append(mag_str.as_str());
        proof {
            reveal_strlit("-");
        }
        assert(r@ =~= dec_int(n as int));
        r
    }
}

/// Whether two string slices hold the same characters.
pub fn str_eq(a: &str, b: &str) -> (r: bool)
    ensures
        r == (a@ == b@),
{
    let sa: String = a.to_owned();
    let sb: String = b.to_owned();
    sa == sb
}

/// Whether `s` begins with `prefix`.
pub fn str_starts_with(s: &str, prefix: &str) -> (r: bool)
    ensures
        r == (s@.len() >= prefix@.len() && s@.subrange(0, prefix@.len() as int) == prefix@),
{
    let n = prefix.unicode_len();
    let sn = s.unicode_len();
    if n > sn {
        return false;
    }
    let mut i: usize = 0;
    while i < n
        invariant
            0 <= i <= n,
            n == prefix@.len(),
            n <= sn == s@.len(),
            forall|j: int| 0 <= j < i ==> s@[j] == prefix@[j],
        decreases n - i,
    {
        if s.get_char(i) != prefix.get_char(i) {
            return false;
        }
        i += 1;
    }
    proof {
        assert(s@.subrange(0, prefix@.len() as int) =~= prefix@);
    }
    true
}

/// Whether a character is a decimal digit.
pub open spec fn is_digit(c: char) -> bool {
    '0' as int <= c as int <= '9' as int
}

/// The numeric value of one decimal digit character.
pub open spec fn digit_val(c: char) -> nat {
    (c as int - '0' as int) as nat
}

/// Whether every character of `s` is a decimal digit.
pub open spec fn all_digits(s: Seq<char>) -> bool {
    forall|i: int| 0 <= i < s.len() ==> is_digit(#[trigger] s[i])
}

/// The numeric value of a sequence of decimal digit characters.
pub open spec fn digits_val(s: Seq<char>) -> nat
    decreases s.len(),
{
    if s.len() == 0 {
        0
    } else {
        digits_val(s.drop_last()) * 10 + digit_val(s.last())
    }
}

/// The digit run of a decimal numeral: the whole string, or what follows a
/// single leading plus sign.
pub open spec fn numeral_digits(s: Seq<char>) -> Seq<char> {
    if s.len() > 0 && s[0] == '+' {
        s.skip(1)
    } else {
        s
    }
}

/// Whether `s` is a decimal numeral whose value fits in 64 unsigned bits:
/// an optional leading plus sign, then at least one digit, with a value of
/// at most `u64::MAX`.
pub open spec fn is_u64_numeral(s: Seq<char>) -> bool {
    &&& numeral_digits(s).len() > 0
    &&& all_digits(numeral_digits(s))
    &&& digits_val(numeral_digits(s)) <= u64::MAX
}

/// The value of a longer digit prefix is at least the value of a shorter one.
proof fn lemma_digits_val_prefix_le(s: Seq<char>, i: int, j: int)
    requires
        0 <= i <= j <= s.len(),
        all_digits(s),
    ensures
        digits_val(s.take(i)) <= digits_val(s.take(j)),
    decreases j - i,
{
    if i < j {
        lemma_digits_val_prefix_le(s, i, j - 1);
        assert(s.take(j).drop_last() =~= s.take(j - 1));
        assert(digits_val(s.take(j)) == digits_val(s.take(j - 1)) * 10 + digit_val(s[j - 1]));
    }
}

/// Parses a decimal numeral (optional leading plus sign, then digits) into
/// an unsigned value; `None` exactly on malformed or overflowing input.
pub fn parse_u64(s: &str) -> (r: Option<u64>)
    ensures
        r is Some <==> is_u64_numeral(s@),
        r is Some ==> r->Some_0 as nat == digits_val(numeral_digits(s@)),
{
    let n = s.unicode_len();
    let mut i: usize = 0;
    if n > 0 && s.get_char(0) == '+' {
        i = 1;
    }
    let ghost digits = numeral_digits(s@);
    proof {
        assert(digits =~= s@.skip(i as int));
    }
    if i == n {
        // No digits at all.
        return None;
    }
    let start = i;
    let mut acc: u64 = 0;
    while i < n
        invariant
            start <= i <= n,
            n == s@.len(),
            start == (if s@.len() > 0 && s@[0] == '+' {
                1int
            } else {
                0int
            }),
            digits == numeral_digits(s@),
            digits =~= s@.skip(start as int),
            all_digits(digits.take(i - start)),
            acc as nat == digits_val(digits.take(i - start)),
        decreases n - i,
    {
        let c = s.get_char(i);
        if !(c >= '0' && c <= '9') {
            assert(digits[i - start] == c && !is_digit(c));
            return None;
        }
        let d: u64 = (c as u32 as u64) - ('0' as u32 as u64);
        let shifted = match acc.checked_mul(10) {
            Some(v) => v,
            None => {
                proof {
                    overflow_means_not_numeral(digits, i - start, acc as nat * 10);
                }
                return None;
            },
        };
        let next = match shifted.checked_add(d) {
            Some(v) => v,
            None => {
                proof {
                    overflow_means_not_numeral(digits, i - start, (acc as nat * 10 + d) as nat);
                }
                return None;
            },
        };
        proof {
            assert(digits.take(i - start + 1).drop_last() =~= digits.take(i - start));
            assert(digits.take(i - start + 1).last() == digits[i - start]);
        }
        acc = next;
        i += 1;
    }
    proof {
        assert(digits.take(i - start) =~= digits);
    }
    Some(acc)
}

/// Whether a character separates tag tokens.
pub open spec fn is_ws(c: char) -> bool {
    c == ' ' || c == '\t' || c == '\n' || c == '\r'
}

/// Splitting on whitespace with a partial token carried in: the maximal
/// nonempty runs of non-whitespace characters, in order.
pub open spec fn split_ws_carry(cur: Seq<char>, s: Seq<char>) -> Seq<Seq<char>>
    decreases s.len(),
{
    if s.len() == 0 {
        if cur.len() == 0 {
            seq![]
        } else {
            seq![cur]
        }
    } else if is_ws(s[0]) {
        if cur.len() == 0 {
            split_ws_carry(seq![], s.skip(1))
        } else {
            seq![cur] + split_ws_carry(seq![], s.skip(1))
        }
    } else {
        split_ws_carry(cur.push(s[0]), s.skip(1))
    }
}

/// The whitespace-separated tokens of `s`, in order.
pub open spec fn spec_split_ws(s: Seq<char>) -> Seq<Seq<char>> {
    split_ws_carry(seq![], s)
}

/// Splits `s` into its whitespace-separated tokens.
pub fn split_whitespace_tokens(s: &str) -> (r: Vec<String>)
    ensures
        r.deep_view() == spec_split_ws(s@),
{
    let n = s.unicode_len();
    let mut out: Vec<String> = Vec::new();
    let mut tok_start: usize = 0;
    let mut i: usize = 0;
    proof {
        assert(s@.subrange(0, 0) =~= Seq::<char>::empty());
        assert(s@.skip(0) =~= s@);
        assert(out.deep_view() =~= Seq::<Seq<char>>::empty());
        assert(Seq::<Seq<char>>::empty() + split_ws_carry(Seq::empty(), s@) =~= split_ws_carry(
            Seq::empty(),
            s@,
        ));
        assert(Seq::<Seq<char>>::empty() + split_comma_carry(Seq::empty(), s@)
            =~= split_comma_carry(Seq::empty(), s@));
    }
    while i < n
        invariant
            0 <= tok_start <= i <= n,
            n == s@.len(),
            out.deep_view() + split_ws_carry(
                s@.subrange(tok_start as int, i as int),
                s@.skip(i as int),
            ) == spec_split_ws(s@),
        decreases n - i,
    {
        let ghost cur = s@.subrange(tok_start as int, i as int);
        let ghost rest = s@.skip(i as int);
        proof {
            assert(rest[0] == s@[i as int]);
            assert(rest.skip(1) =~= s@.skip(i as int + 1));
        }
        let c = s.get_char(i);
        if c == ' ' || c == '\t' || c == '\n' || c == '\r' {
            if tok_start < i {
                let tok = s.substring_char(tok_start, i).to_owned();
                out.push(tok);
                proof {
                    assert(s@.subrange(tok_start as int + 1 + (i - tok_start), i as int + 1)
                        =~= s@.subrange(i as int + 1, i as int + 1));
                }
            }
            tok_start = i + 1;
            proof {
                assert(s@.subrange(tok_start as int, i as int + 1) =~= Seq::<char>::empty());
            }
        } else {
            proof {
                assert(s@.subrange(tok_start as int, i as int + 1) =~= cur.push(s@[i as int]));
            }
        }
        i += 1;
    }
    if tok_start < n {
        let tok = s.substring_char(tok_start, n).to_owned();
        out.push(tok);
    }
    proof {
        assert(s@.skip(n as int) =~= Seq::<char>::empty());
    }
    out
}

/// Splitting on commas with a partial field carried in: every field is
/// kept, an empty one too.
pub open spec fn split_comma_carry(cur: Seq<char>, s: Seq<char>) -> Seq<Seq<char>>
    decreases s.len(),
{
    if s.len() == 0 {
        seq![cur]
    } else if s[0] == ',' {
        seq![cur] + split_comma_carry(seq![], s.skip(1))
    } else {
        split_comma_carry(cur.push(s[0]), s.skip(1))
    }
}

/// The comma-separated fields of `s`, in order; always at least one field.
pub open spec fn spec_split_commas(s: Seq<char>) -> Seq<Seq<char>> {
    split_comma_carry(seq![], s)
}

/// Splits `s` on commas, keeping empty fields.
pub fn split_commas(s: &str) -> (r: Vec<String>)
    ensures
        r.deep_view() == spec_split_commas(s@),
{
    let n = s.unicode_len();
    let mut out: Vec<String> = Vec::new();
    let mut tok_start: usize = 0;
    let mut i: usize = 0;
    proof {
        assert(s@.subrange(0, 0) =~= Seq::<char>::empty());
        assert(s@.skip(0) =~= s@);
        assert(out.deep_view() =~= Seq::<Seq<char>>::empty());
        assert(Seq::<Seq<char>>::empty() + split_ws_carry(Seq::empty(), s@) =~= split_ws_carry(
            Seq::empty(),
            s@,
        ));
        assert(Seq::<Seq<char>>::empty() + split_comma_carry(Seq::empty(), s@)
            =~= split_comma_carry(Seq::empty(), s@));
    }
    while i < n
        invariant
            0 <= tok_start <= i <= n,
            n == s@.len(),
            out.deep_view() + split_comma_carry(
                s@.subrange(tok_start as int, i as int),
                s@.skip(i as int),
            ) == spec_split_commas(s@),
        decreases n - i,
    {
        let ghost cur = s@.subrange(tok_start as int, i as int);
        let ghost rest = s@.skip(i as int);
        proof {
            assert(rest[0] == s@[i as int]);
            assert(rest.skip(1) =~= s@.skip(i as int + 1));
        }
        let c = s.get_char(i);
        if c == ',' {
            let tok = s.substring_char(tok_start, i).to_owned();
            out.push(tok);
            tok_start = i + 1;
            proof {
                assert(s@.subrange(tok_start as int, i as int + 1) =~= Seq::<char>::empty());
            }
        } else {
            proof {
                assert(s@.subrange(tok_start as int, i as int + 1) =~= cur.push(s@[i as int]));
            }
        }
        i += 1;
    }
    let tok = s.substring_char(tok_start, n).to_owned();
    out.push(tok);
    proof {
        assert(s@.skip(n as int) =~= Seq::<char>::empty());
        assert(s@.subrange(tok_start as int, n as int) =~= s@.skip(tok_start as int).take(
            n - tok_start,
        ));
    }
    out
}

/// The parts joined with the separator between consecutive parts.
pub open spec fn spec_join(parts: Seq<Seq<char>>, sep: Seq<char>) -> Seq<char>
    decreases parts.len(),
{
    if parts.len() == 0 {
        seq![]
    } else if parts.len() == 1 {
        parts[0]
    } else {
        parts[0] + sep + spec_join(parts.skip(1), sep)
    }
}

fn join_from(parts: &Vec<String>, i: usize, sep: &str) -> (r: String)
    requires
        i <= parts.len(),
    ensures
        r@ == spec_join(parts.deep_view().skip(i as int), sep@),
    decreases parts.len() - i,
{
    let ghost tail = parts.deep_view().skip(i as int);
    if i == parts.len() {
        proof {
            assert(tail =~= Seq::<Seq<char>>::empty());
        }
        String::new()
    } else if i + 1 == parts.len() {
        proof {
            assert(tail.len() == 1 && tail[0] == parts.deep_view()[i as int]);
        }
        parts[i].clone()
    } else {
        let mut r = parts[i].clone();
        r.append(sep);
        let rest = join_from(parts, i + 1, sep);
        r.append(rest.as_str());
        proof {
            assert(tail.skip(1) =~= parts.deep_view().skip(i as int + 1));
            assert(tail[0] == parts.deep_view()[i as int]);
        }
        r
    }
}

/// Joins the parts with the separator between consecutive parts.
pub fn join_all(parts: &Vec<String>, sep: &str) -> (r: String)
    ensures
        r@ == spec_join(parts.deep_view(), sep@),
{
    let r = join_from(parts, 0, sep);
    proof {
        assert(parts.deep_view().skip(0) =~= parts.deep_view());
    }
    r
}

/// If the value of the digits seen so far already exceeds `u64::MAX`, the
/// whole run does too, so the input is no numeral in range.
proof fn overflow_means_not_numeral(digits: Seq<char>, k: int, partial: nat)
    requires
        0 <= k < digits.len(),
        all_digits(digits.take(k)),
        is_digit(digits[k]),
        partial >= digits_val(digits.take(k)) * 10,
        partial > u64::MAX,
        partial <= digits_val(digits.take(k)) * 10 + digit_val(digits[k]),
    ensures
        !is_u64_numeral(digits) || digits != numeral_digits(digits),
        !(all_digits(digits) && digits_val(digits) <= u64::MAX),
{
    if all_digits(digits) {
        assert(digits.take(k + 1).drop_last() =~= digits.take(k));
        assert(digits_val(digits.take(k + 1)) == digits_val(digits.take(k)) * 10 + digit_val(
            digits[k],
        ));
        lemma_digits_val_prefix_le(digits, k + 1, digits.len() as int);
        assert(digits.take(digits.len() as int) =~= digits);
    }
}

} // verus!
