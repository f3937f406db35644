//! Text primitives shared by the parsers and printers of the library: decimal
//! numbers and splitting a string at a single separator.
use vstd::prelude::*;

verus! {

/// `c` is one of the ASCII digits `0`..`9`.
pub open spec fn is_digit(c: char) -> bool {
    '0' <= c && c <= '9'
}

/// Numeric value of an ASCII digit.
pub open spec fn digit_value(c: char) -> nat {
    ((c as u32) - ('0' as u32)) as nat
}

/// The ASCII digit for a number below ten.
pub open spec fn digit_char(d: nat) -> char {
    if d == 0 { '0' }
    else if d == 1 { '1' }
    else if d == 2 { '2' }
    else if d == 3 { '3' }
    else if d == 4 { '4' }
    else if d == 5 { '5' }
    else if d == 6 { '6' }
    else if d == 7 { '7' }
    else if d == 8 { '8' }
    else { '9' }
}

/// Every character of `s` is an ASCII digit.
pub open spec fn all_digits(s: Seq<char>) -> bool {
    forall|i: int| 0 <= i < s.len() ==> #[trigger] is_digit(s[i])
}

/// Value of a string of decimal digits, most significant first.
pub open spec fn decimal_value(s: Seq<char>) -> nat
    decreases s.len(),
{
    if s.len() == 0 {
        0
    } else {
        decimal_value(s.drop_last()) * 10 + digit_value(s.last())
    }
}

/// Decimal representation of `n` without leading zeros (`"0"` for zero), as
/// the standard `Display` of unsigned integers prints it.
pub open spec fn dec_chars(n: nat) -> Seq<char>
    decreases n,
{
    if n < 10 {
        seq![digit_char(n)]
    } else {
        dec_chars(n / 10).push(digit_char(n % 10))
    }
}

/// What `u64::from_str` gives back for a string: an optional leading `+`
/// followed by at least one ASCII digit, the value fitting into 64 bits.
pub open spec fn parse_u64_spec(s: Seq<char>) -> Option<u64> {
    let d = if s.len() > 0 && s[0] == '+' { s.drop_first() } else { s };
    if d.len() > 0 && all_digits(d) && decimal_value(d) <= u64::MAX {
        Some(decimal_value(d) as u64)
    } else {
        None
    }
}

/// `i` is the only position at which `c` occurs in `s`.
pub open spec fn sole_index(s: Seq<char>, c: char, i: int) -> bool {
    &&& 0 <= i < s.len()
    &&& s[i] == c
    &&& forall|j: int| 0 <= j < s.len() && j != i ==> s[j] != c
}

/// The two parts of `s` around its single occurrence of `c`; `None` when `c`
/// occurs zero or several times.
pub open spec fn split_once_exact(s: Seq<char>, c: char) -> Option<(Seq<char>, Seq<char>)> {
    if exists|i: int| sole_index(s, c, i) {
        let i = choose|i: int| sole_index(s, c, i);
        Some((s.take(i), s.skip(i + 1)))
    } else {
        None
    }
}

pub proof fn lemma_digit_char(d: nat)
    requires
        d < 10,
    ensures
        is_digit(digit_char(d)),
        digit_value(digit_char(d)) == d,
        digit_char(d) != '+',
        digit_char(d) != ':',
        digit_char(d) != ' ',
{
}

/// The decimal text of a number consists of digits and reads back as that
/// number.
pub proof fn lemma_dec_chars(n: nat)
    ensures
        dec_chars(n).len() > 0,
        all_digits(dec_chars(n)),
        decimal_value(dec_chars(n)) == n,
        dec_chars(n)[0] != '+',
        !dec_chars(n).contains(':'),
        !dec_chars(n).contains(' '),
    decreases n,
{
    if n < 10 {
        lemma_digit_char(n);
        assert(dec_chars(n).drop_last() =~= Seq::<char>::empty());
        assert(decimal_value(Seq::<char>::empty()) == 0);
        assert(dec_chars(n).last() == digit_char(n));
        assert(dec_chars(n)[0] == digit_char(n));
    } else {
        lemma_dec_chars(n / 10);
        lemma_digit_char(n % 10);
        let s = dec_chars(n);
        assert(s == dec_chars(n / 10).push(digit_char(n % 10)));
        assert(s.drop_last() =~= dec_chars(n / 10));
        assert forall|i: int| 0 <= i < s.len() implies #[trigger] is_digit(s[i]) by {
            if i < s.len() - 1 {
                assert(s[i] == dec_chars(n / 10)[i]);
            }
        }
        assert(decimal_value(s) == (n / 10) * 10 + n % 10);
        assert forall|i: int| 0 <= i < s.len() implies s[i] != ':' && s[i] != ' ' by {
            assert(is_digit(s[i]));
        }
    }
}

/// Every text that `dec_chars` produces is read back by `u64::from_str`.
pub proof fn lemma_parse_dec(n: u64)
    ensures
        parse_u64_spec(dec_chars(n as nat)) == Some(n),
{
    lemma_dec_chars(n as nat);
}

/// The digits of a prefix never add up to more than those of the whole.
pub proof fn lemma_decimal_prefix(s: Seq<char>, k: int)
    requires
        0 <= k <= s.len(),
        all_digits(s),
    ensures
        decimal_value(s.take(k)) <= decimal_value(s),
    decreases s.len() - k,
{
    if k < s.len() {
        lemma_decimal_prefix(s, k + 1);
        assert(s.take(k + 1).drop_last() =~= s.take(k));
    } else {
        assert(s.take(k) =~= s);
    }
}

/// Splitting at the single separator that joins two separator-free parts gives
/// the parts back.
pub proof fn lemma_split_joined(a: Seq<char>, b: Seq<char>, c: char)
    requires
        !a.contains(c),
        !b.contains(c),
    ensures
        split_once_exact(a + seq![c] + b, c) == Some((a, b)),
{
    let s = a + seq![c] + b;
    let i = a.len() as int;
    assert(s[i] == c);
    assert forall|j: int| 0 <= j < s.len() && j != i implies s[j] != c by {
        if j < i {
            assert(s[j] == a[j]);
        } else {
            assert(s[j] == b[j - i - 1]);
        }
    }
    assert(sole_index(s, c, i));
    let k = choose|k: int| sole_index(s, c, k);
    assert(k == i);
    assert(s.take(i) =~= a);
    assert(s.skip(i + 1) =~= b);
}

/// A string made of one ASCII digit.
pub fn digit_str(d: u64) -> (r: &'static str)
    requires
        d < 10,
    ensures
        r@ == seq![digit_char(d as nat)],
{
    if d == 0 {
        proof { reveal_strlit("0"); }
        "0"
    } else if d == 1 {
        proof { reveal_strlit("1"); }
        "1"
    } else if d == 2 {
        proof { reveal_strlit("2"); }
        "2"
    } else if d == 3 {
        proof { reveal_strlit("3"); }
        "3"
    } else if d == 4 {
        proof { reveal_strlit("4"); }
        "4"
    } else if d == 5 {
        proof { reveal_strlit("5"); }
        "5"
    } else if d == 6 {
        proof { reveal_strlit("6"); }
        "6"
    } else if d == 7 {
        proof { reveal_strlit("7"); }
        "7"
    } else if d == 8 {
        proof { reveal_strlit("8"); }
        "8"
    } else {
        proof { reveal_strlit("9"); }
        "9"
    }
}

/// Appends the decimal representation of `n` to `out`.
pub fn push_decimal(out: &mut String, n: u64)
    ensures
        final(out)@ == old(out)@ + dec_chars(n as nat),
    decreases n,
{
    if n >= 10 {
        push_decimal(out, n / 10);
    }
    out.append(digit_str(n % 10));
    proof {
        if n >= 10 {
            assert(dec_chars(n as nat) == dec_chars((n / 10) as nat).push(digit_char((n % 10) as nat)));
        }
    }
}

/// Decimal representation of `n`.
pub fn decimal_string(n: u64) -> (r: String)
    ensures
        r@ == dec_chars(n as nat),
{
    let mut out = String::new();
    push_decimal(&mut out, n);
    out
}

/// Parses a string as `u64::from_str` does.
pub fn parse_u64(s: &str) -> (r: Option<u64>)
    ensures
        r == parse_u64_spec(s@),
{
    let len = s.unicode_len();
    let ghost t = s@;
    let start: usize = if len > 0 && s.get_char(0) == '+' { 1 } else { 0 };
    let ghost d = if t.len() > 0 && t[0] == '+' { t.drop_first() } else { t };
    assert(d =~= t.skip(start as int));
    if start == len {
        return None;
    }
    let mut acc: u64 = 0;
    let mut i = start;
    while i < len
        invariant
            start <= i <= len,
            len == t.len(),
            t == s@,
            d =~= t.skip(start as int),
            d == (if t.len() > 0 && t[0] == '+' { t.drop_first() } else { t }),
            all_digits(d.take(i - start)),
            acc as nat == decimal_value(d.take(i - start)),
        decreases len - i,
    {
        let c = s.get_char(i);
        if !('0' <= c && c <= '9') {
            proof {
                assert(d[i - start] == c);
                assert(!is_digit(d[i - start]));
                assert(!all_digits(d));
            }
            return None;
        }
        let dv = (c as u32 - '0' as u32) as u64;
        proof {
            assert(d.take(i - start + 1).drop_last() =~= d.take(i - start));
            assert(d.take(i - start + 1).last() == c);
            assert forall|j: int| 0 <= j < i - start + 1 implies #[trigger] is_digit(d.take(i - start + 1)[j]) by {
                if j < i - start {
                    assert(d.take(i - start + 1)[j] == d.take(i - start)[j]);
                }
            }
            assert(digit_value(c) == dv);
            assert(decimal_value(d.take(i - start + 1)) == acc * 10 + dv);
        }
        if acc > (u64::MAX - dv) / 10 {
            proof {
                assert(acc * 10 + dv > u64::MAX) by (nonlinear_arith)
                    requires
                        acc > (u64::MAX - dv) / 10,
                        dv <= 9,
                ;
                // any completion of the digits is at least as large as this prefix
                if all_digits(d) {
                    lemma_decimal_prefix(d, i - start + 1);
                    assert(decimal_value(d) > u64::MAX);
                }
            }
            return None;
        }
        proof {
            assert(acc * 10 + dv <= u64::MAX) by (nonlinear_arith)
                requires
                    acc <= (u64::MAX - dv) / 10,
                    dv <= 9,
            ;
        }
        acc = acc * 10 + dv;
        i = i + 1;
    }
    assert(d.take(i - start) =~= d);
    Some(acc)
}

} // verus!
