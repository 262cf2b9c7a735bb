//! Decimal and hexadecimal text of integers.
use vstd::prelude::*;
use crate::text::{push_char, str_chars};

verus! {

/// Whether `c` is an ASCII decimal digit.
pub open spec fn is_digit(c: char) -> bool {
    '0' <= c && c <= '9'
}

/// The value of a decimal digit.
pub open spec fn digit_value(c: char) -> int {
    (c as int) - ('0' as int)
}

/// Whether every character is a decimal digit.
pub open spec fn all_digits(ds: Seq<char>) -> bool {
    forall|i: int| 0 <= i < ds.len() ==> is_digit(#[trigger] ds[i])
}

/// The value of a string of decimal digits, most significant first.
pub open spec fn digits_value(ds: Seq<char>) -> int
    decreases ds.len(),
{
    if ds.len() == 0 {
        0
    } else {
        digits_value(ds.drop_last()) * 10 + digit_value(ds.last())
    }
}

/// What `str::parse::<i64>` gives: an optional `+` or `-`, then at least one decimal
/// digit and nothing else, with a value in the range of `i64`.
pub open spec fn parse_i64_spec(s: Seq<char>) -> Option<i64> {
    let neg = s.len() > 0 && s[0] == '-';
    let signed = s.len() > 0 && (s[0] == '-' || s[0] == '+');
    let ds = if signed {
        s.skip(1)
    } else {
        s
    };
    if ds.len() == 0 || !all_digits(ds) {
        None
    } else {
        let v = if neg {
            -digits_value(ds)
        } else {
            digits_value(ds)
        };
        if i64::MIN <= v && v <= i64::MAX {
            Some(v as i64)
        } else {
            None
        }
    }
}

/// The value of digits is not negative, and no prefix has a larger value.
proof fn lemma_digits_value_prefix(ds: Seq<char>, k: int)
    requires
        all_digits(ds),
        0 <= k <= ds.len(),
    ensures
        0 <= digits_value(ds.take(k)) <= digits_value(ds),
    decreases ds.len(),
{
    if ds.len() > 0 {
        let d = ds.drop_last();
        assert(all_digits(d)) by {
            assert forall|i: int| 0 <= i < d.len() implies is_digit(#[trigger] d[i]) by {
                assert(d[i] == ds[i]);
            }
        }
        assert(is_digit(ds[ds.len() - 1]));
        if k == ds.len() {
            assert(ds.take(k) =~= ds);
            lemma_digits_value_prefix(d, d.len() as int);
            assert(d.take(d.len() as int) =~= d);
        } else {
            lemma_digits_value_prefix(d, k);
            assert(d.take(k) =~= ds.take(k));
            lemma_digits_value_prefix(d, d.len() as int);
            assert(d.take(d.len() as int) =~= d);
        }
    } else {
        assert(ds.take(k) =~= ds);
    }
}

/// Parses a decimal `i64` as `str::parse::<i64>` does.
#[verifier::loop_isolation(false)]
pub fn parse_i64(s: &str) -> (r: Option<i64>)
    ensures
        r == parse_i64_spec(s@),
{
    let cs = str_chars(s);
    let n = cs.len();
    let neg = n > 0 && cs[0] == '-';
    let signed = n > 0 && (cs[0] == '-' || cs[0] == '+');
    let start: usize = if signed { 1 } else { 0 };
    let ghost ds = if signed { s@.skip(1) } else { s@ };
    assert(ds =~= cs@.subrange(start as int, n as int));
    if start >= n {
        return None;
    }
    let mut acc: u128 = 0;
    let mut k: usize = start;
    while k < n
        invariant
            cs@ == s@,
            n == cs@.len(),
            start <= k <= n,
            ds == cs@.subrange(start as int, n as int),
            acc == digits_value(ds.take(k - start)),
            acc <= 0x8000_0000_0000_0000,
            all_digits(ds.take(k - start)),
        decreases n - k,
    {
        let c = cs[k];
        if !('0' <= c && c <= '9') {
            assert(!is_digit(ds[k - start]));
            return None;
        }
        let d: u128 = ((c as u32) - ('0' as u32)) as u128;
        proof {
            assert(ds.take(k - start + 1).drop_last() =~= ds.take(k - start));
            assert(ds.take(k - start + 1).last() == c);
            assert(all_digits(ds.take(k - start + 1))) by {
                assert forall|i: int| 0 <= i < ds.take(k - start + 1).len() implies is_digit(
                    #[trigger] ds.take(k - start + 1)[i],
                ) by {
                    if i < k - start {
                        assert(ds.take(k - start + 1)[i] == ds.take(k - start)[i]);
                    }
                }
            }
        }
        acc = acc * 10 + d;
        k = k + 1;
        if acc > 0x8000_0000_0000_0000 {
            proof {
                if all_digits(ds) {
                    lemma_digits_value_prefix(ds, k - start);
                }
            }
            return None;
        }
    }
    assert(ds.take(n - start) =~= ds);
    if neg {
        if acc == 0x8000_0000_0000_0000 {
            Some(i64::MIN)
        } else {
            Some(-(acc as i64))
        }
    } else {
        if acc <= 0x7fff_ffff_ffff_ffff {
            Some(acc as i64)
        } else {
            None
        }
    }
}

/// The lowercase hexadecimal digit for `d` (below 16).
pub open spec fn hex_digit(d: nat) -> char {
    if d < 10 {
        (('0' as nat) + d) as char
    } else {
        (('a' as nat) + d - 10) as char
    }
}

/// The lowercase hexadecimal text of `n`, without leading zeros (`"0"` for zero), as
/// `format!("{:x}", n)` writes it.
pub open spec fn hex_text(n: nat) -> Seq<char>
    decreases n,
{
    if n < 16 {
        seq![hex_digit(n)]
    } else {
        hex_text(n / 16).push(hex_digit(n % 16))
    }
}

/// The digit character for a value below 16.
fn hex_char(d: u128) -> (c: char)
    requires
        d < 16,
    ensures
        c == hex_digit(d as nat),
{
    if d < 10 {
        (('0' as u8) + (d as u8)) as char
    } else {
        (('a' as u8) + (d as u8) - 10) as char
    }
}

/// The lowercase hexadecimal text of `n`.
pub fn hex_lower(n: u128) -> (r: String)
    ensures
        r@ == hex_text(n as nat),
{
    let mut m: u128 = n;
    let mut suffix: Vec<char> = Vec::new();
    while m >= 16
        invariant
            hex_text(n as nat) == hex_text(m as nat) + suffix@,
        decreases m,
    {
        let c = hex_char(m % 16);
        suffix.insert(0, c);
        proof {
            assert(hex_text(m as nat) == hex_text((m / 16) as nat).push(hex_digit((m % 16) as nat)));
            assert(hex_text(m as nat) + suffix@.drop_first() =~= hex_text((m / 16) as nat) + suffix@);
        }
        m = m / 16;
    }
    let mut r = String::new();
    push_char(&mut r, hex_char(m));
    let mut i: usize = 0;
    while i < suffix.len()
        invariant
            i <= suffix@.len(),
            r@ == seq![hex_digit(m as nat)] + suffix@.take(i as int),
        decreases suffix@.len() - i,
    {
        push_char(&mut r, suffix[i]);
        i = i + 1;
        assert(r@ =~= seq![hex_digit(m as nat)] + suffix@.take(i as int));
    }
    assert(suffix@.take(suffix@.len() as int) =~= suffix@);
    r
}

/// The two numbers written one after the other in lowercase hexadecimal, as
/// `format!("{:x}{:x}", secs, nanos)` writes them: the simple unique id of instances
/// and accounts, made from the time at which they are created.
pub fn uuid_simple(secs: u64, subsec_nanos: u32) -> (r: String)
    ensures
        r@ == hex_text(secs as nat) + hex_text(subsec_nanos as nat),
{
    let mut r = hex_lower(secs as u128);
    let b = hex_lower(subsec_nanos as u128);
    r.append(b.as_str());
    r
}

/// The decimal digit character for `d` (below 10).
pub open spec fn dec_digit(d: nat) -> char {
    (('0' as nat) + d) as char
}

/// The decimal text of `n`, without leading zeros (`"0"` for zero), as `format!("{}", n)`
/// writes it.
pub open spec fn decimal_text(n: nat) -> Seq<char>
    decreases n,
{
    if n < 10 {
        seq![dec_digit(n)]
    } else {
        decimal_text(n / 10).push(dec_digit(n % 10))
    }
}

/// The decimal text of `n`.
pub fn u64_decimal(n: u64) -> (r: String)
    ensures
        r@ == decimal_text(n as nat),
{
    let mut m: u64 = n;
    let mut suffix: Vec<char> = Vec::new();
    while m >= 10
        invariant
            decimal_text(n as nat) == decimal_text(m as nat) + suffix@,
        decreases m,
    {
        let c = (('0' as u8) + ((m % 10) as u8)) as char;
        suffix.insert(0, c);
        proof {
            assert(decimal_text(m as nat) == decimal_text((m / 10) as nat).push(dec_digit((m % 10) as nat)));
            assert(decimal_text(m as nat) + suffix@.drop_first() =~= decimal_text((m / 10) as nat) + suffix@);
        }
        m = m / 10;
    }
    let mut r = String::new();
    push_char(&mut r, (('0' as u8) + (m as u8)) as char);
    let mut i: usize = 0;
    while i < suffix.len()
        invariant
            i <= suffix@.len(),
            r@ == seq![dec_digit(m as nat)] + suffix@.take(i as int),
        decreases suffix@.len() - i,
    {
        push_char(&mut r, suffix[i]);
        i = i + 1;
        assert(r@ =~= seq![dec_digit(m as nat)] + suffix@.take(i as int));
    }
    assert(suffix@.take(suffix@.len() as int) =~= suffix@);
    r
}

} // verus!
