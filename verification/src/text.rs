//! Verified text helpers: trimming, comparison, suffix tests, and decimal
//! conversion, each pinned to a spec-level definition over `Seq<char>`.

use vstd::prelude::*;

verus! {

/// The whitespace characters that [`trim_of`] strips: the ASCII whitespace set.
pub open spec fn is_space(c: char) -> bool {
    c == ' ' || c == '\t' || c == '\n' || c == '\r' || c == '\u{000C}'
}

/// `s` with every leading and trailing whitespace character removed.
pub open spec fn trim_of(s: Seq<char>) -> Seq<char>
    decreases s.len(),
{
    if s.len() == 0 {
        s
    } else if is_space(s[0]) {
        trim_of(s.drop_first())
    } else if is_space(s.last()) {
        trim_of(s.drop_last())
    } else {
        s
    }
}

/// `s` ends with `suffix`.
pub open spec fn ends_with(s: Seq<char>, suffix: Seq<char>) -> bool {
    s.len() >= suffix.len() && s.subrange(s.len() - suffix.len(), s.len() as int) == suffix
}

/// Dropping a trailing space commutes with the order the definition of
/// [`trim_of`] strips in.
proof fn lemma_trim_drop_last(s: Seq<char>)
    requires
        s.len() > 0,
        is_space(s.last()),
    ensures
        trim_of(s) == trim_of(s.drop_last()),
    decreases s.len(),
{
    if is_space(s[0]) {
        if s.len() == 1 {
            assert(s.drop_first() =~= s.drop_last());
        } else {
            assert(s.drop_first().last() == s.last());
            lemma_trim_drop_last(s.drop_first());
            assert(s.drop_first().drop_last() =~= s.drop_last().drop_first());
            assert(s.drop_last()[0] == s[0]);
        }
    }
}

fn is_space_char(c: char) -> (r: bool)
    ensures
        r == is_space(c),
{
    c == ' ' || c == '\t' || c == '\n' || c == '\r' || c == '\u{000C}'
}

/// Strip leading and trailing whitespace from `s`.
pub fn trim(s: &str) -> (r: &str)
    ensures
        r@ == trim_of(s@),
{
    let len = s.unicode_len();
    let mut i: usize = 0;
    let mut j: usize = len;
    proof {
        assert(s@.subrange(0, len as int) =~= s@);
    }
    while i < j && is_space_char(s.get_char(i))
        invariant
            len == s@.len(),
            0 <= i <= j <= len,
            trim_of(s@) == trim_of(s@.subrange(i as int, j as int)),
        decreases j - i,
    {
        proof {
            let sub = s@.subrange(i as int, j as int);
            assert(sub[0] == s@[i as int]);
            assert(sub.drop_first() =~= s@.subrange(i + 1, j as int));
        }
        i = i + 1;
    }
    while i < j && is_space_char(s.get_char(j - 1))
        invariant
            len == s@.len(),
            0 <= i <= j <= len,
            trim_of(s@) == trim_of(s@.subrange(i as int, j as int)),
            i < j ==> !is_space(s@[i as int]),
        decreases j - i,
    {
        proof {
            let sub = s@.subrange(i as int, j as int);
            assert(sub.last() == s@[j - 1]);
            lemma_trim_drop_last(sub);
            assert(sub.drop_last() =~= s@.subrange(i as int, j - 1));
        }
        j = j - 1;
    }
    proof {
        let sub = s@.subrange(i as int, j as int);
        if i < j {
            assert(sub[0] == s@[i as int]);
            assert(sub.last() == s@[j - 1]);
            assert(trim_of(sub) == sub);
        } else {
            assert(sub =~= Seq::<char>::empty());
        }
    }
    s.substring_char(i, j)
}

/// Character-for-character equality of two string slices.
pub fn str_eq(a: &str, b: &str) -> (r: bool)
    ensures
        r == (a@ == b@),
{
    let alen = a.unicode_len();
    let blen = b.unicode_len();
    if alen != blen {
        return false;
    }
    let mut k: usize = 0;
    while k < alen
        invariant
            alen == a@.len(),
            alen == b@.len(),
            0 <= k <= alen,
            forall|m: int| 0 <= m < k ==> a@[m] == b@[m],
        decreases alen - k,
    {
        if a.get_char(k) != b.get_char(k) {
            return false;
        }
        k = k + 1;
    }
    proof {
        assert(a@ =~= b@);
    }
    true
}

/// `c` is a decimal digit.
pub open spec fn is_digit(c: char) -> bool {
    48 <= c as int <= 57
}

/// The numeric value of the digit `c`.
pub open spec fn digit_of(c: char) -> int {
    c as int - 48
}

/// The number the digit string `s` denotes, most significant digit first.
pub open spec fn digits_val(s: Seq<char>) -> int
    decreases s.len(),
{
    if s.len() == 0 {
        0
    } else {
        digits_val(s.drop_last()) * 10 + digit_of(s.last())
    }
}

/// Every character of `s` is a decimal digit.
pub open spec fn all_digits(s: Seq<char>) -> bool {
    forall|i: int| 0 <= i < s.len() ==> is_digit(s[i])
}

/// What parsing `s` as a signed 64-bit decimal integer yields: an optional
/// leading sign followed by at least one digit, and a value within range;
/// anything else is `None`.
pub open spec fn parse_i64_spec(s: Seq<char>) -> Option<i64> {
    let neg = s.len() > 0 && s[0] == '-';
    let digits = if s.len() > 0 && (s[0] == '-' || s[0] == '+') {
        s.drop_first()
    } else {
        s
    };
    if digits.len() == 0 || !all_digits(digits) {
        None
    } else {
        let v = if neg {
            -digits_val(digits)
        } else {
            digits_val(digits)
        };
        if -0x8000_0000_0000_0000 <= v <= 0x7fff_ffff_ffff_ffff {
            Some(v as i64)
        } else {
            None
        }
    }
}

/// A value of at least one digit can only grow when another digit is
/// appended.
proof fn lemma_digits_val_grows(s: Seq<char>, c: char)
    requires
        digits_val(s) >= 0,
        is_digit(c),
    ensures
        digits_val(s.push(c)) >= digits_val(s),
{
    assert(s.push(c).drop_last() =~= s);
    assert(s.push(c).last() == c);
}

/// Parse a signed 64-bit decimal integer, as [`parse_i64_spec`] describes.
#[verifier::loop_isolation(false)]
pub fn parse_i64(s: &str) -> (r: Option<i64>)
    ensures
        r == parse_i64_spec(s@),
{
    let len = s.unicode_len();
    if len == 0 {
        return None;
    }
    let first = s.get_char(0);
    let neg = first == '-';
    let start: usize = if first == '-' || first == '+' {
        1
    } else {
        0
    };
    let ghost digits = if s@[0] == '-' || s@[0] == '+' {
        s@.drop_first()
    } else {
        s@
    };
    proof {
        assert(digits =~= s@.subrange(start as int, len as int));
    }
    if start == len {
        return None;
    }
    let mut acc: i128 = 0;
    let mut over = false;
    let mut k: usize = start;
    while k < len
        invariant
            start <= k <= len,
            len == s@.len(),
            start <= 1,
            digits == s@.subrange(start as int, len as int),
            forall|m: int| start <= m < k ==> is_digit(s@[m]),
            !over ==> acc == digits_val(s@.subrange(start as int, k as int)) && 0 <= acc
                <= 0x8000_0000_0000_0000,
            over ==> digits_val(s@.subrange(start as int, k as int)) > 0x8000_0000_0000_0000,
        decreases len - k,
    {
        let c = s.get_char(k);
        let u = c as u32;
        if !(48 <= u && u <= 57) {
            proof {
                assert(digits[k - start] == s@[k as int]);
                assert(!all_digits(digits)) by {
                    if all_digits(digits) {
                        assert(is_digit(digits[k - start]));
                    }
                }
            }
            return None;
        }
        let d = u - 48;
        proof {
            let pre = s@.subrange(start as int, k as int);
            let post = s@.subrange(start as int, k + 1);
            assert(post.drop_last() =~= pre);
            assert(post.last() == s@[k as int]);
            if !over {
                assert(digits_val(post) == acc * 10 + digit_of(s@[k as int]));
            } else {
                assert(digits_val(pre) >= 0);
                lemma_digits_val_grows(pre, s@[k as int]);
                assert(pre.push(s@[k as int]) =~= post);
            }
        }
        if !over {
            acc = acc * 10 + d as i128;
            if acc > 0x8000_0000_0000_0000i128 {
                over = true;
            }
        }
        k = k + 1;
    }
    proof {
        assert(digits =~= s@.subrange(start as int, len as int));
        assert(all_digits(digits)) by {
            assert forall|i: int| 0 <= i < digits.len() implies is_digit(digits[i]) by {
                assert(digits[i] == s@[start + i]);
            }
        }
    }
    if over {
        return None;
    }
    if neg {
        let v: i128 = -acc;
        proof {
            assert(-0x8000_0000_0000_0000 <= v <= 0);
        }
        Some(v as i64)
    } else {
        if acc > 0x7fff_ffff_ffff_ffffi128 {
            return None;
        }
        Some(acc as i64)
    }
}

/// The decimal rendering of the non-negative number `n`, most significant
/// digit first.
pub open spec fn dec_str_of(n: int) -> Seq<char>
    decreases n,
{
    if n < 10 {
        seq![digit_char(n)]
    } else {
        dec_str_of(n / 10) + seq![digit_char(n % 10)]
    }
}

/// The digit character for a value between 0 and 9.
pub open spec fn digit_char(d: int) -> char {
    if d == 0 {
        '0'
    } else if d == 1 {
        '1'
    } else if d == 2 {
        '2'
    } else if d == 3 {
        '3'
    } else if d == 4 {
        '4'
    } else if d == 5 {
        '5'
    } else if d == 6 {
        '6'
    } else if d == 7 {
        '7'
    } else if d == 8 {
        '8'
    } else {
        '9'
    }
}

fn digit_str(d: u32) -> (r: &'static str)
    requires
        d < 10,
    ensures
        r@ == seq![digit_char(d as int)],
{
    proof {
        reveal_strlit("0");
        reveal_strlit("1");
        reveal_strlit("2");
        reveal_strlit("3");
        reveal_strlit("4");
        reveal_strlit("5");
        reveal_strlit("6");
        reveal_strlit("7");
        reveal_strlit("8");
        reveal_strlit("9");
    }
    let r = if d == 0 {
        "0"
    } else if d == 1 {
        "1"
    } else if d == 2 {
        "2"
    } else if d == 3 {
        "3"
    } else if d == 4 {
        "4"
    } else if d == 5 {
        "5"
    } else if d == 6 {
        "6"
    } else if d == 7 {
        "7"
    } else if d == 8 {
        "8"
    } else {
        "9"
    };
    proof {
        assert(r@ =~= seq![digit_char(d as int)]);
    }
    r
}

/// Render `n` in decimal.
pub fn u32_dec(n: u32) -> (r: String)
    ensures
        r@ == dec_str_of(n as int),
    decreases n,
{
    if n < 10 {
        digit_str(n).to_owned()
    } else {
        let mut s = u32_dec(n / 10);
        s.append(digit_str(n % 10));
        s
    }
}

/// Does `s` end with `suffix`?
pub fn str_ends_with(s: &str, suffix: &str) -> (r: bool)
    ensures
        r == ends_with(s@, suffix@),
{
    let slen = s.unicode_len();
    let xlen = suffix.unicode_len();
    if slen < xlen {
        return false;
    }
    let off = slen - xlen;
    let mut k: usize = 0;
    while k < xlen
        invariant
            slen == s@.len(),
            xlen == suffix@.len(),
            off == slen - xlen,
            0 <= k <= xlen,
            forall|m: int| 0 <= m < k ==> s@[off + m] == suffix@[m],
        decreases xlen - k,
    {
        if s.get_char(off + k) != suffix.get_char(k) {
            proof {
                assert(s@.subrange(off as int, slen as int)[k as int] == s@[off + k]);
            }
            return false;
        }
        k = k + 1;
    }
    proof {
        assert(s@.subrange(off as int, slen as int) =~= suffix@);
    }
    true
}

} // verus!
