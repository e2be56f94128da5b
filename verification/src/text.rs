//! Decimal numbers in text: writing them, reading them back, and Discord mentions.

use vstd::prelude::*;
use vstd::string::*;

verus! {

/// The character of the decimal digit `d`.
pub open spec fn digit_char(d: int) -> char {
    (d + 48) as char
}

/// Whether `c` is one of the ASCII digits `0` to `9`.
pub open spec fn is_digit(c: char) -> bool {
    '0' <= c && c <= '9'
}

/// The value of the digit character `c`.
pub open spec fn digit_value(c: char) -> int {
    c as int - 48
}

/// The decimal digits of `n`, most significant first, without leading zeros.
pub open spec fn digits_of(n: nat) -> Seq<char>
    decreases n,
{
    if n < 10 {
        seq![digit_char(n as int)]
    } else {
        digits_of(n / 10).push(digit_char((n % 10) as int))
    }
}

/// How Rust's `Display` writes the integer `n`: a `-` before negative numbers, then the digits.
pub open spec fn decimal(n: int) -> Seq<char> {
    if n < 0 {
        seq!['-'] + digits_of((-n) as nat)
    } else {
        digits_of(n as nat)
    }
}

/// Whether every character of `s` is a digit.
pub open spec fn all_digits(s: Seq<char>) -> bool {
    forall|i: int| 0 <= i < s.len() ==> #[trigger] is_digit(s[i])
}

/// The value of the digit string `s`, read as a decimal number (0 for the empty string).
pub open spec fn digits_value(s: Seq<char>) -> int
    decreases s.len(),
{
    if s.len() == 0 {
        0
    } else {
        digits_value(s.drop_last()) * 10 + digit_value(s.last())
    }
}

/// What `str::parse::<i32>` gives for `s`: an optional `+` or `-`, then at least one
/// ASCII digit and nothing else, with a value that fits in an `i32`.
pub open spec fn parse_i32_spec(s: Seq<char>) -> Option<i32> {
    if s.len() == 0 {
        None
    } else {
        let neg = s[0] == '-';
        let body = if s[0] == '-' || s[0] == '+' {
            s.drop_first()
        } else {
            s
        };
        let v = if neg {
            -digits_value(body)
        } else {
            digits_value(body)
        };
        if body.len() == 0 || !all_digits(body) {
            None
        } else if i32::MIN <= v <= i32::MAX {
            Some(v as i32)
        } else {
            None
        }
    }
}

/// Appends one character to a string.
///
/// Calls `String::push`, which appends the character at the end.
#[verifier::external_body]
fn push_char(s: &mut String, c: char)
    ensures
        final(s)@ == old(s)@.push(c),
{
    s.push(c);
}

fn digit_to_char(d: u8) -> (c: char)
    requires
        d < 10,
    ensures
        c == digit_char(d as int),
{
    ((d + 48) as u8) as char
}

/// Appends the decimal digits of `n` to `s`.
fn push_digits(s: &mut String, n: u128)
    ensures
        final(s)@ == old(s)@ + digits_of(n as nat),
    decreases n,
{
    if n >= 10 {
        push_digits(s, n / 10);
    }
    let d = (n % 10) as u8;
    push_char(s, digit_to_char(d));
    proof {
        if n >= 10 {
            assert(digits_of(n as nat) == digits_of((n / 10) as nat).push(digit_char((n % 10) as int)));
        }
    }
}

/// Appends the decimal form of `n` to `s`, as `write!(s, "{}", n)` does.
pub fn push_int(s: &mut String, n: i128)
    ensures
        final(s)@ == old(s)@ + decimal(n as int),
{
    if n < 0 {
        push_char(s, '-');
        let m: u128 = ((-(n + 1)) as u128) + 1;
        push_digits(s, m);
        proof {
            assert(old(s)@.push('-') + digits_of(m as nat) =~= old(s)@ + (seq!['-'] + digits_of(m as nat)));
        }
    } else {
        push_digits(s, n as u128);
    }
}

/// The decimal form of `n`, as `n.to_string()` writes it.
pub fn format_int(n: i128) -> (r: String)
    ensures
        r@ == decimal(n as int),
{
    let mut s = String::new();
    push_int(&mut s, n);
    proof {
        assert(Seq::<char>::empty() + decimal(n as int) =~= decimal(n as int));
    }
    s
}

/// How Discord mentions the user with id `id`: `<@id>`.
pub open spec fn mention(id: int) -> Seq<char> {
    "<@"@ + decimal(id) + ">"@
}

/// The mention of a Discord user, as serenity's `Mention` displays it: `<@id>`.
pub fn user_mention(id: u64) -> (r: String)
    ensures
        r@ == mention(id as int),
{
    let mut s = String::from_str("<@");
    push_int(&mut s, id as i128);
    s.append(">");
    s
}

proof fn lemma_digits_value_push(s: Seq<char>, c: char)
    ensures
        digits_value(s.push(c)) == digits_value(s) * 10 + digit_value(c),
{
    assert(s.push(c).drop_last() =~= s);
}

/// A digit string's value is at least that of any of its prefixes.
proof fn lemma_digits_value_prefix(s: Seq<char>, k: int)
    requires
        0 <= k <= s.len(),
        all_digits(s),
    ensures
        digits_value(s.take(k)) <= digits_value(s),
        digits_value(s) >= 0,
    decreases s.len(),
{
    if s.len() > 0 {
        let t = s.drop_last();
        assert(all_digits(t)) by {
            assert forall|i: int| 0 <= i < t.len() implies #[trigger] is_digit(t[i]) by {
                assert(t[i] == s[i]);
            }
        }
        assert(is_digit(s[s.len() - 1]));
        if k < s.len() {
            lemma_digits_value_prefix(t, k);
            assert(t.take(k) =~= s.take(k));
        } else {
            lemma_digits_value_prefix(t, 0);
            assert(s.take(k) =~= s);
        }
    }
}

/// Reads a decimal `i32` as `str::parse::<i32>` does.
pub fn parse_i32(s: &str) -> (r: Option<i32>)
    ensures
        r == parse_i32_spec(s@),
{
    let len = s.unicode_len();
    if len == 0 {
        return None;
    }
    let first = s.get_char(0);
    let neg = first == '-';
    let start: usize = if first == '-' || first == '+' {
        1
    } else {
        0
    };
    let ghost body = if first == '-' || first == '+' {
        s@.drop_first()
    } else {
        s@
    };
    proof {
        assert(body =~= s@.subrange(start as int, len as int));
    }
    if start == len {
        return None;
    }
    let mut acc: i64 = 0;
    let mut i: usize = start;
    while i < len
        invariant
            start <= i <= len,
            len == s@.len(),
            body =~= s@.subrange(start as int, len as int),
            s@.len() > 0,
            neg == (s@[0] == '-'),
            body == (if s@[0] == '-' || s@[0] == '+' {
                s@.drop_first()
            } else {
                s@
            }),
            all_digits(s@.subrange(start as int, i as int)),
            acc as int == digits_value(s@.subrange(start as int, i as int)),
            0 <= acc <= 2_147_483_648,
        decreases len - i,
    {
        let c = s.get_char(i);
        if !('0' <= c && c <= '9') {
            proof {
                assert(body[i - start] == c);
                assert(!is_digit(body[i - start]));
                assert(!all_digits(body));
                assert(parse_i32_spec(s@) is None);
            }
            return None;
        }
        let d = (c as u32 - 48) as i64;
        let next = acc * 10 + d;
        proof {
            let p = s@.subrange(start as int, i as int);
            assert(s@.subrange(start as int, i + 1) =~= p.push(c));
            lemma_digits_value_push(p, c);
            assert(all_digits(s@.subrange(start as int, i + 1))) by {
                let q = s@.subrange(start as int, i + 1);
                assert forall|j: int| 0 <= j < q.len() implies #[trigger] is_digit(q[j]) by {
                    if j < p.len() {
                        assert(q[j] == p[j]);
                    }
                }
            }
        }
        if next > 2_147_483_648 {
            proof {
                if all_digits(body) {
                    lemma_digits_value_prefix(body, i + 1 - start);
                    assert(body.take(i + 1 - start) =~= s@.subrange(start as int, i + 1));
                    assert(digits_value(s@.subrange(start as int, i + 1)) == next);
                    assert(digits_value(body) > 2_147_483_648);
                }
                assert(parse_i32_spec(s@) is None);
            }
            return None;
        }
        acc = next;
        i = i + 1;
    }
    proof {
        assert(s@.subrange(start as int, len as int) =~= body);
    }
    if neg {
        Some((-acc) as i32)
    } else if acc <= 2_147_483_647 {
        Some(acc as i32)
    } else {
        None
    }
}

/// The digits of a number are digits, and there is at least one.
proof fn lemma_digits_of_digits(n: nat)
    ensures
        all_digits(digits_of(n)),
        digits_of(n).len() >= 1,
        digits_value(digits_of(n)) == n,
    decreases n,
{
    if n >= 10 {
        lemma_digits_of_digits(n / 10);
        let p = digits_of(n / 10);
        let c = digit_char((n % 10) as int);
        lemma_digits_value_push(p, c);
        assert(digit_value(c) == n % 10);
        assert((n / 10) * 10 + n % 10 == n);
        assert(digits_of(n) == p.push(c));
        assert forall|i: int| 0 <= i < digits_of(n).len() implies #[trigger] is_digit(
            digits_of(n)[i],
        ) by {
            if i < p.len() {
                assert(digits_of(n)[i] == p[i]);
            }
        }
    } else {
        assert(digit_char(n as int) as int == n + 48);
        assert(digits_of(n).drop_last() =~= Seq::<char>::empty());
        assert(digits_value(Seq::<char>::empty()) == 0);
        assert(digits_value(digits_of(n)) == digit_value(digits_of(n).last()));
        assert(is_digit(digits_of(n)[0]));
    }
}

/// Reading back what was written gives the number again: `n.to_string().parse::<i32>()`
/// is `Ok(n)` for every `i32`.
pub proof fn lemma_parse_format_roundtrip(n: i32)
    ensures
        parse_i32_spec(decimal(n as int)) == Some(n),
{
    if n < 0 {
        let m = (-n) as nat;
        lemma_digits_of_digits(m);
        let s = decimal(n as int);
        assert(s.drop_first() =~= digits_of(m));
        assert(s[0] == '-');
    } else {
        lemma_digits_of_digits(n as nat);
        let s = decimal(n as int);
        assert(is_digit(s[0]));
    }
}

} // verus!
