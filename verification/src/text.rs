//! Small verified text utilities that the request builders share: decimal
//! numerals of integers, decimal parsing, quote stripping, and header lookup.

use vstd::prelude::*;
use vstd::string::{StrSliceExecFns, StringExecFns};

verus! {

/// The decimal digit character for `d`.
pub open spec fn dec_digit(d: int) -> char
    recommends
        0 <= d <= 9,
{
    if d == 0 {
        '0'
    } else if d == 1 {
        '1'
    } else if d == 2 {
        '2'
    } else if d == 3 {
        '3'
    } else if d == 4 {
        '4'
    } else if d == 5 {
        '5'
    } else if d == 6 {
        '6'
    } else if d == 7 {
        '7'
    } else if d == 8 {
        '8'
    } else {
        '9'
    }
}

/// The decimal numeral of `n`, most significant digit first, no sign and
/// no leading zeros.
pub open spec fn spec_dec(n: int) -> Seq<char>
    recommends
        n >= 0,
    decreases n,
{
    if n < 10 {
        seq![dec_digit(n)]
    } else {
        spec_dec(n / 10) + seq![dec_digit(n % 10)]
    }
}

/// The one-character string for the decimal digit `d`.
fn dec_digit_str(d: u64) -> (r: &'static str)
    requires
        d < 10,
    ensures
        r@ == seq![dec_digit(d as int)],
{
    proof {
        reveal_strlit("0");
        reveal_strlit("1");
        reveal_strlit("2");
        reveal_strlit("3");
        reveal_strlit("4");
        reveal_strlit("5");
        reveal_strlit("6");
        reveal_strlit("7");
        reveal_strlit("8");
        reveal_strlit("9");
    }
    if d == 0 {
        "0"
    } else if d == 1 {
        "1"
    } else if d == 2 {
        "2"
    } else if d == 3 {
        "3"
    } else if d == 4 {
        "4"
    } else if d == 5 {
        "5"
    } else if d == 6 {
        "6"
    } else if d == 7 {
        "7"
    } else if d == 8 {
        "8"
    } else {
        "9"
    }
}

/// Render `n` as its decimal numeral.
pub fn u64_to_dec(n: u64) -> (r: String)
    ensures
        r@ == spec_dec(n as int),
    decreases n,
{
    if n < 10 {
        dec_digit_str(n).to_owned()
    } else {
        let mut s = u64_to_dec(n / 10);
        s.append(dec_digit_str(n % 10));
        s
    }
}

/// Whether `c` is a decimal digit.
pub open spec fn is_dec_digit(c: char) -> bool {
    '0' <= c <= '9'
}

/// The value of the digit character `c`.
pub open spec fn digit_val(c: char) -> int
    recommends
        is_dec_digit(c),
{
    c as int - '0' as int
}

/// Whether every character of `s` is a decimal digit.
pub open spec fn all_dec_digits(s: Seq<char>) -> bool {
    forall|i: int| 0 <= i < s.len() ==> is_dec_digit(#[trigger] s[i])
}

/// The number that the digit string `s` denotes.
pub open spec fn spec_dec_value(s: Seq<char>) -> int
    recommends
        all_dec_digits(s),
    decreases s.len(),
{
    if s.len() == 0 {
        0
    } else {
        spec_dec_value(s.drop_last()) * 10 + digit_val(s.last())
    }
}

/// A digit string's value only grows as more digits are read: once a prefix
/// exceeds a bound, every longer prefix does too.
proof fn lemma_dec_value_grows(s: Seq<char>, i: int, j: int)
    requires
        all_dec_digits(s),
        0 <= i <= j <= s.len(),
    ensures
        spec_dec_value(s.subrange(0, i)) <= spec_dec_value(s.subrange(0, j)),
    decreases j - i,
{
    if i < j {
        lemma_dec_value_grows(s, i, j - 1);
        let p = s.subrange(0, j);
        assert(p.drop_last() =~= s.subrange(0, j - 1));
        let v = spec_dec_value(s.subrange(0, j - 1));
        assert(v >= 0) by {
            lemma_dec_value_nonneg(s.subrange(0, j - 1));
        }
        assert(spec_dec_value(p) == v * 10 + digit_val(p.last()));
        assert(v <= v * 10) by (nonlinear_arith)
            requires v >= 0;
    } else {
        assert(s.subrange(0, i) =~= s.subrange(0, j));
    }
}

/// A digit string's value is never negative.
proof fn lemma_dec_value_nonneg(s: Seq<char>)
    requires
        all_dec_digits(s),
    ensures
        spec_dec_value(s) >= 0,
    decreases s.len(),
{
    if s.len() > 0 {
        lemma_dec_value_nonneg(s.drop_last());
        let v = spec_dec_value(s.drop_last());
        assert(v * 10 >= 0) by (nonlinear_arith)
            requires v >= 0;
    }
}

/// Parse a decimal numeral. Returns the value when `s` is a non-empty,
/// all-digit string whose value fits in a `u64`, and nothing otherwise.
pub fn parse_u64_dec(s: &str) -> (r: Option<u64>)
    ensures
        r is Some <==> s@.len() > 0 && all_dec_digits(s@) && spec_dec_value(s@) <= u64::MAX,
        r is Some ==> r->0 == spec_dec_value(s@),
{
    let len = s.unicode_len();
    if len == 0 {
        return None;
    }
    let mut acc: u64 = 0;
    let mut i: usize = 0;
    while i < len
        invariant
            len == s@.len(),
            0 <= i <= len,
            all_dec_digits(s@.subrange(0, i as int)),
            acc == spec_dec_value(s@.subrange(0, i as int)),
        decreases len - i,
    {
        let c = s.get_char(i);
        if !('0' <= c && c <= '9') {
            assert(!all_dec_digits(s@));
            return None;
        }
        let d: u64 = (c as u32 - '0' as u32) as u64;
        let shifted = match acc.checked_mul(10) {
            Some(v) => v,
            None => {
                proof {
                    overflow_means_out_of_range(s@, i as int);
                }
                return None;
            },
        };
        let next = match shifted.checked_add(d) {
            Some(v) => v,
            None => {
                proof {
                    overflow_means_out_of_range(s@, i as int);
                }
                return None;
            },
        };
        acc = next;
        proof {
            assert(s@.subrange(0, i + 1).drop_last() =~= s@.subrange(0, i as int));
        }
        i = i + 1;
    }
    proof {
        assert(s@.subrange(0, len as int) =~= s@);
    }
    Some(acc)
}

/// If appending one more digit to a prefix of `s` overflows a `u64`, then
/// the value of the whole string is out of range.
proof fn overflow_means_out_of_range(s: Seq<char>, i: int)
    requires
        0 <= i < s.len(),
        all_dec_digits(s.subrange(0, i)),
        is_dec_digit(s[i]),
        spec_dec_value(s.subrange(0, i)) * 10 + digit_val(s[i]) > u64::MAX,
    ensures
        all_dec_digits(s) ==> spec_dec_value(s) > u64::MAX,
{
    if all_dec_digits(s) {
        assert(s.subrange(0, i + 1).drop_last() =~= s.subrange(0, i));
        assert(spec_dec_value(s.subrange(0, i + 1)) > u64::MAX);
        lemma_dec_value_grows(s, i + 1, s.len() as int);
        assert(s.subrange(0, s.len() as int) =~= s);
    }
}

/// Whether `c` is one of the two quote characters that the service may put
/// around an ETag.
pub open spec fn is_quote(c: char) -> bool {
    c == '"' || c == '\''
}

/// `s` with every leading quote character removed.
pub open spec fn trim_quotes_front(s: Seq<char>) -> Seq<char>
    decreases s.len(),
{
    if s.len() > 0 && is_quote(s[0]) {
        trim_quotes_front(s.drop_first())
    } else {
        s
    }
}

/// `s` with every trailing quote character removed.
pub open spec fn trim_quotes_back(s: Seq<char>) -> Seq<char>
    decreases s.len(),
{
    if s.len() > 0 && is_quote(s.last()) {
        trim_quotes_back(s.drop_last())
    } else {
        s
    }
}

/// `s` with all surrounding single or double quotes removed.
pub open spec fn spec_remove_quotes(s: Seq<char>) -> Seq<char> {
    trim_quotes_back(trim_quotes_front(s))
}

/// Strip the quoting that the service puts around ETag values: every leading
/// and trailing `"` or `'` character.
pub fn remove_quotes(s: &str) -> (r: String)
    ensures
        r@ == spec_remove_quotes(s@),
{
    let len = s.unicode_len();
    proof {
        assert(s@.subrange(0, len as int) =~= s@);
    }
    let mut lo: usize = 0;
    while lo < len
        invariant_except_break
            len == s@.len(),
            0 <= lo <= len,
            trim_quotes_front(s@) == trim_quotes_front(s@.subrange(lo as int, len as int)),
        ensures
            len == s@.len(),
            0 <= lo <= len,
            trim_quotes_front(s@) == s@.subrange(lo as int, len as int),
        decreases len - lo,
    {
        let c = s.get_char(lo);
        if !(c == '"' || c == '\'') {
            break;
        }
        proof {
            assert(s@.subrange(lo as int, len as int).drop_first() =~= s@.subrange(
                lo + 1,
                len as int,
            ));
        }
        lo = lo + 1;
    }
    let mut hi: usize = len;
    while hi > lo
        invariant_except_break
            len == s@.len(),
            0 <= lo <= hi <= len,
            trim_quotes_front(s@) == s@.subrange(lo as int, len as int),
            trim_quotes_back(s@.subrange(lo as int, len as int)) == trim_quotes_back(
                s@.subrange(lo as int, hi as int),
            ),
        ensures
            len == s@.len(),
            0 <= lo <= hi <= len,
            trim_quotes_back(s@.subrange(lo as int, len as int)) == s@.subrange(
                lo as int,
                hi as int,
            ),
        decreases hi - lo,
    {
        let c = s.get_char(hi - 1);
        if !(c == '"' || c == '\'') {
            break;
        }
        proof {
            assert(s@.subrange(lo as int, hi as int).drop_last() =~= s@.subrange(
                lo as int,
                hi - 1,
            ));
        }
        hi = hi - 1;
    }
    let trimmed = s.substring_char(lo, hi);
    trimmed.to_owned()
}

/// The value of the first header named `name`, if any.
pub open spec fn spec_header_lookup(h: Seq<(String, String)>, name: Seq<char>) -> Option<
    Seq<char>,
>
    decreases h.len(),
{
    if h.len() == 0 {
        None
    } else if h[0].0@ == name {
        Some(h[0].1@)
    } else {
        spec_header_lookup(h.drop_first(), name)
    }
}

/// Look up the value of the first header named `name`.
pub fn header_value(headers: &Vec<(String, String)>, name: &str) -> (r: Option<String>)
    ensures
        r is Some <==> spec_header_lookup(headers@, name@) is Some,
        r matches Some(v) ==> v@ == spec_header_lookup(headers@, name@)->0,
{
    let wanted: String = name.to_owned();
    let n = headers.len();
    proof {
        assert(headers@.subrange(0, n as int) =~= headers@);
    }
    let mut i: usize = 0;
    while i < n
        invariant
            n == headers@.len(),
            0 <= i <= n,
            wanted@ == name@,
            spec_header_lookup(headers@, name@) == spec_header_lookup(
                headers@.subrange(i as int, n as int),
                name@,
            ),
        decreases n - i,
    {
        let pair = &headers[i];
        if pair.0.eq(&wanted) {
            return Some(pair.1.clone());
        }
        proof {
            assert(headers@.subrange(i as int, n as int).drop_first() =~= headers@.subrange(
                i + 1,
                n as int,
            ));
        }
        i = i + 1;
    }
    None
}

} // verus!
