//! Verified text utilities: whitespace-delimited word splitting, decimal
//! number parsing and plain character-level string operations. All tag
//! payload parsers are built on these.
use vstd::prelude::*;

verus! {

/// The word separators of the tag payload grammar: space and horizontal tab.
pub open spec fn is_space(c: char) -> bool {
    c == ' ' || c == '\t'
}

/// The views of a sequence of owned strings.
pub open spec fn str_views(ws: Seq<String>) -> Seq<Seq<char>> {
    ws.map_values(|w: String| w@)
}

/// The words of `s` from position `i` on, given the partial word `cur`
/// collected just before `i`.
pub open spec fn words_acc(s: Seq<char>, i: int, cur: Seq<char>) -> Seq<Seq<char>>
    decreases s.len() - i,
{
    if i < 0 || i >= s.len() {
        if cur.len() == 0 {
            Seq::empty()
        } else {
            seq![cur]
        }
    } else if is_space(s[i]) {
        (if cur.len() == 0 {
            Seq::<Seq<char>>::empty()
        } else {
            seq![cur]
        }) + words_acc(s, i + 1, Seq::empty())
    } else {
        words_acc(s, i + 1, cur.push(s[i]))
    }
}

/// The maximal space-free words of `s`, in order.
pub open spec fn words_of(s: Seq<char>) -> Seq<Seq<char>> {
    words_acc(s, 0, Seq::empty())
}

/// Splits `s` into its whitespace-delimited words.
pub fn split_words(s: &str) -> (r: Vec<String>)
    ensures
        str_views(r@) == words_of(s@),
{
    let n = s.unicode_len();
    let mut out: Vec<String> = Vec::new();
    let mut cur: String = String::new();
    let mut i: usize = 0;
    while i < n
        invariant
            n == s@.len(),
            i <= n,
            words_of(s@) == str_views(out@) + words_acc(s@, i as int, cur@),
        decreases n - i,
    {
        let c = s.get_char(i);
        if c == ' ' || c == '\t' {
            if !cur.as_str().is_empty() {
                proof {
                    assert(str_views(out@.push(cur)) =~= str_views(out@).push(cur@));
                }
                out.push(cur);
                cur = String::new();
                proof {
                    assert(words_of(s@) == str_views(out@) + words_acc(
                        s@,
                        i + 1 as int,
                        cur@,
                    ));
                }
            } else {
                assert(cur@ =~= Seq::<char>::empty());
            }
        } else {
            push_char(&mut cur, c);
        }
        i = i + 1;
    }
    if !cur.as_str().is_empty() {
        proof {
            assert(str_views(out@.push(cur)) =~= str_views(out@).push(cur@));
        }
        out.push(cur);
    } else {
        assert(cur@ =~= Seq::<char>::empty());
    }
    proof {
        assert(words_of(s@) =~= str_views(out@));
    }
    out
}

/// Relies on String::push of std: appends one character at the end.
#[verifier::external_body]
pub(crate) fn push_char(s: &mut String, c: char)
    ensures
        final(s)@ == old(s)@.push(c),
{
    s.push(c);
}

/// A decimal digit.
pub open spec fn is_digit(c: char) -> bool {
    '0' <= c && c <= '9'
}

/// The numeric value of one decimal digit.
pub open spec fn digit_val(c: char) -> int {
    c as int - '0' as int
}

/// Every character of `s` is a decimal digit.
pub open spec fn all_digits(s: Seq<char>) -> bool {
    forall|j: int| 0 <= j < s.len() ==> is_digit(#[trigger] s[j])
}

/// The value of a digit string, read left to right.
pub open spec fn digits_val(s: Seq<char>) -> int
    decreases s.len(),
{
    if s.len() == 0 {
        0
    } else {
        digits_val(s.drop_last()) * 10 + digit_val(s.last())
    }
}

/// A digit string's value never shrinks when more digits follow.
proof fn lemma_digits_prefix_le(s: Seq<char>, i: int)
    requires
        0 <= i <= s.len(),
        all_digits(s),
    ensures
        digits_val(s.subrange(0, i)) <= digits_val(s),
        digits_val(s) >= 0,
    decreases s.len(),
{
    if s.len() == 0 {
    } else {
        lemma_digits_prefix_le(s.drop_last(), if i < s.len() { i } else { i - 1 });
        if i < s.len() {
            assert(s.subrange(0, i) =~= s.drop_last().subrange(0, i));
        } else {
            assert(s.subrange(0, i) =~= s);
        }
    }
}

/// What an unsigned decimal word denotes: every character a digit, at least
/// one of them, and the value within `bound`.
pub open spec fn spec_uint(s: Seq<char>, bound: int) -> Option<int> {
    if s.len() > 0 && all_digits(s) && digits_val(s) <= bound {
        Some(digits_val(s))
    } else {
        None
    }
}

/// Parses a word of decimal digits as an unsigned value at most `bound`.
pub fn parse_uint(s: &str, bound: u64) -> (r: Option<u64>)
    ensures
        match r {
            Some(v) => spec_uint(s@, bound as int) == Some(v as int),
            None => spec_uint(s@, bound as int) is None,
        },
{
    let n = s.unicode_len();
    if n == 0 {
        return None;
    }
    let mut val: u64 = 0;
    let mut i: usize = 0;
    while i < n
        invariant
            n == s@.len(),
            0 < n,
            i <= n,
            all_digits(s@.subrange(0, i as int)),
            val == digits_val(s@.subrange(0, i as int)),
            val <= bound,
            bound <= u64::MAX,
        decreases n - i,
    {
        let c = s.get_char(i);
        if c < '0' || c > '9' {
            return None;
        }
        let d: u64 = (c as u32 - '0' as u32) as u64;
        proof {
            assert(s@.subrange(0, i + 1 as int).drop_last() =~= s@.subrange(0, i as int));
        }
        if d > bound || val > (bound - d) / 10 {
            proof {
                let ext = s@.subrange(0, i + 1 as int);
                assert(digits_val(ext) == val * 10 + d);
                if d > bound {
                    assert(digits_val(ext) > bound) by (nonlinear_arith)
                        requires
                            digits_val(ext) == val * 10 + d,
                            d > bound,
                            val >= 0,
                    ;
                } else {
                    assert(digits_val(ext) > bound) by (nonlinear_arith)
                        requires
                            digits_val(ext) == val * 10 + d,
                            val > (bound - d) / 10,
                            0 <= d <= 9,
                            d <= bound,
                            bound >= 0,
                    ;
                }
                if all_digits(s@) {
                    lemma_digits_prefix_le(s@, i + 1 as int);
                }
            }
            return None;
        }
        proof {
            assert(val * 10 + d <= bound) by (nonlinear_arith)
                requires
                    val <= (bound - d) / 10,
                    0 <= d <= 9,
                    d <= bound,
                    bound >= 0,
            ;
        }
        val = val * 10 + d;
        i = i + 1;
    }
    proof {
        assert(s@.subrange(0, n as int) =~= s@);
    }
    Some(val)
}

/// What a word denotes for the unsigned readers that also accept one leading
/// `+` sign.
pub open spec fn spec_uint_plus(s: Seq<char>, bound: int) -> Option<int> {
    if s.len() >= 1 && s[0] == '+' {
        spec_uint(s.subrange(1, s.len() as int), bound)
    } else {
        spec_uint(s, bound)
    }
}

/// Parses an unsigned decimal word, accepting one leading `+` sign.
pub fn parse_uint_plus(s: &str, bound: u64) -> (r: Option<u64>)
    ensures
        match r {
            Some(v) => spec_uint_plus(s@, bound as int) == Some(v as int),
            None => spec_uint_plus(s@, bound as int) is None,
        },
{
    let n = s.unicode_len();
    if n >= 1 && s.get_char(0) == '+' {
        let rest = s.substring_char(1, n);
        parse_uint(rest, bound)
    } else {
        parse_uint(s, bound)
    }
}

/// What a signed decimal word denotes: an optional `-` sign, then digits
/// whose value is at most `bound`; the sign negates the value.
pub open spec fn spec_int(s: Seq<char>, bound: int) -> Option<int> {
    if s.len() >= 1 && s[0] == '-' {
        match spec_uint(s.subrange(1, s.len() as int), bound) {
            Some(v) => Some(-v),
            None => None,
        }
    } else {
        spec_uint(s, bound)
    }
}

/// Parses a signed decimal word into an `i64`.
pub fn parse_i64(s: &str) -> (r: Option<i64>)
    ensures
        match r {
            Some(v) => spec_int(s@, i64::MAX as int) == Some(v as int),
            None => spec_int(s@, i64::MAX as int) is None,
        },
{
    let n = s.unicode_len();
    if n >= 1 && s.get_char(0) == '-' {
        let rest = s.substring_char(1, n);
        match parse_uint(rest, i64::MAX as u64) {
            Some(v) => Some(-(v as i64)),
            None => None,
        }
    } else {
        match parse_uint(s, i64::MAX as u64) {
            Some(v) => Some(v as i64),
            None => None,
        }
    }
}

/// Ten to the `k`th power.
pub open spec fn pow10(k: int) -> int
    decreases k,
{
    if k <= 0 {
        1
    } else {
        10 * pow10(k - 1)
    }
}

/// The first position at or after `i` where `c` occurs in `s`, or `s.len()`.
pub open spec fn find_from(s: Seq<char>, c: char, i: int) -> int
    decreases s.len() - i,
{
    if i < 0 || i >= s.len() {
        s.len() as int
    } else if s[i] == c {
        i
    } else {
        find_from(s, c, i + 1)
    }
}

proof fn lemma_find_from_bounds(s: Seq<char>, c: char, i: int)
    requires
        0 <= i <= s.len(),
    ensures
        i <= find_from(s, c, i) <= s.len(),
        find_from(s, c, i) < s.len() ==> s[find_from(s, c, i)] == c,
    decreases s.len() - i,
{
    if i < s.len() && s[i] != c {
        lemma_find_from_bounds(s, c, i + 1);
    }
}

/// Finds the first occurrence of `c` in `s`, or returns `s`'s length.
pub fn find_char(s: &str, c: char) -> (r: usize)
    ensures
        r == find_from(s@, c, 0),
        r <= s@.len(),
{
    let n = s.unicode_len();
    let mut i: usize = 0;
    while i < n
        invariant
            n == s@.len(),
            i <= n,
            find_from(s@, c, 0) == find_from(s@, c, i as int),
        decreases n - i,
    {
        if s.get_char(i) == c {
            return i;
        }
        i = i + 1;
    }
    i
}

/// The last position strictly below `i` where `c` occurs in `s`, or
/// `s.len()` when it occurs nowhere there.
pub open spec fn find_last_below(s: Seq<char>, c: char, i: int) -> int
    decreases i,
{
    if i <= 0 || i > s.len() {
        s.len() as int
    } else if s[i - 1] == c {
        i - 1
    } else {
        find_last_below(s, c, i - 1)
    }
}

/// Finds the last occurrence of `c` in `s`, or returns `s`'s length.
pub fn find_last_char(s: &str, c: char) -> (r: usize)
    ensures
        r == find_last_below(s@, c, s@.len() as int),
        r <= s@.len(),
{
    let n = s.unicode_len();
    let mut i: usize = n;
    while i > 0
        invariant
            n == s@.len(),
            i <= n,
            find_last_below(s@, c, n as int) == find_last_below(s@, c, i as int),
        decreases i,
    {
        if s.get_char(i - 1) == c {
            return i - 1;
        }
        i = i - 1;
    }
    n
}

/// Whether every character of `s` is a decimal digit (an empty `s` passes).
pub fn check_digits(s: &str) -> (r: bool)
    ensures
        r == all_digits(s@),
{
    let n = s.unicode_len();
    let mut i: usize = 0;
    while i < n
        invariant
            n == s@.len(),
            i <= n,
            forall|j: int| 0 <= j < i ==> is_digit(#[trigger] s@[j]),
        decreases n - i,
    {
        let c = s.get_char(i);
        if c < '0' || c > '9' {
            return false;
        }
        i = i + 1;
    }
    true
}

/// The largest whole-second value a microsecond total below `i64::MAX` can
/// carry together with a full fractional part.
pub open spec fn micros_seconds_cap() -> int {
    9223372036853
}

/// The microsecond value of a fractional-digit run: only the first six
/// digits are significant.
pub open spec fn frac_micros(fr: Seq<char>) -> int {
    let k = if fr.len() <= 6 {
        fr.len() as int
    } else {
        6
    };
    digits_val(fr.subrange(0, k)) * pow10(6 - k)
}

/// What an unsigned decimal-point word denotes, in microseconds: digits with
/// an optional fraction (`"1"`, `"1."`, `"1.5"`, `".5"`), capped so the total
/// fits a signed 64-bit microsecond count. Exponent spellings are not part
/// of this grammar; the log source writes plain fixed-point durations.
pub open spec fn spec_unsigned_decimal_micros(s: Seq<char>) -> Option<int> {
    let d = find_from(s, '.', 0);
    if d == s.len() {
        if s.len() > 0 && all_digits(s) && digits_val(s) <= micros_seconds_cap() {
            Some(digits_val(s) * 1000000)
        } else {
            None
        }
    } else {
        let ip = s.subrange(0, d);
        let fr = s.subrange(d + 1, s.len() as int);
        if (ip.len() > 0 || fr.len() > 0) && all_digits(ip) && all_digits(fr) && digits_val(ip)
            <= micros_seconds_cap() {
            Some(digits_val(ip) * 1000000 + frac_micros(fr))
        } else {
            None
        }
    }
}

/// What a signed decimal-point word denotes, in microseconds.
pub open spec fn spec_decimal_micros(s: Seq<char>) -> Option<int> {
    if s.len() >= 1 && (s[0] == '-' || s[0] == '+') {
        match spec_unsigned_decimal_micros(s.subrange(1, s.len() as int)) {
            Some(v) => Some(if s[0] == '-' { -v } else { v }),
            None => None,
        }
    } else {
        spec_unsigned_decimal_micros(s)
    }
}

fn pow10_u64(k: usize) -> (r: u64)
    requires
        k <= 6,
    ensures
        r == pow10(k as int),
{
    proof {
        reveal_with_fuel(pow10, 8);
    }
    if k == 0 {
        1
    } else if k == 1 {
        10
    } else if k == 2 {
        100
    } else if k == 3 {
        1000
    } else if k == 4 {
        10000
    } else if k == 5 {
        100000
    } else {
        1000000
    }
}

#[verifier::spinoff_prover]
#[verifier::rlimit(50)]
fn parse_unsigned_decimal_micros(s: &str) -> (r: Option<i64>)
    ensures
        match r {
            Some(v) => spec_unsigned_decimal_micros(s@) == Some(v as int) && v >= 0,
            None => spec_unsigned_decimal_micros(s@) is None,
        },
{
    let n = s.unicode_len();
    let d = find_char(s, '.');
    proof {
        lemma_find_from_bounds(s@, '.', 0);
    }
    if d == n {
        match parse_uint(s, 9223372036853) {
            Some(v) => {
                proof {
                    assert(spec_unsigned_decimal_micros(s@) == Some(v as int * 1000000));
                }
                Some((v as i64) * 1000000)
            },
            None => {
                proof {
                    assert(spec_unsigned_decimal_micros(s@) is None);
                }
                None
            },
        }
    } else {
        let ip = s.substring_char(0, d);
        let fr = s.substring_char(d + 1, n);
        if ip.unicode_len() == 0 && fr.unicode_len() == 0 {
            return None;
        }
        if !check_digits(fr) {
            return None;
        }
        let ival: u64 = if ip.unicode_len() == 0 {
            0u64
        } else {
            match parse_uint(ip, 9223372036853) {
                Some(v) => v,
                None => {
                    return None;
                },
            }
        };
        let flen = fr.unicode_len();
        let k: usize = if flen <= 6 {
            flen
        } else {
            6
        };
        let scaled: u64;
        if flen == 0 {
            scaled = 0;
            proof {
                assert(fr@.subrange(0, 0) =~= Seq::<char>::empty());
            }
        } else {
            let fr6 = fr.substring_char(0, k);
            proof {
                assert(fr6@ =~= fr@.subrange(0, k as int));
                lemma_digits_bound(fr6@);
                lemma_pow10_small(k as int);
            }
            let fval = match parse_uint(fr6, 999999) {
                Some(v) => v,
                None => {
                    proof {
                        assert(false);
                    }
                    return None;
                },
            };
            let p = pow10_u64(6 - k);
            proof {
                lemma_pow10_split(k as int);
                lemma_pow10_small(6 - k as int);
                assert(digits_val(fr6@) * pow10(6 - k as int) <= 999999) by (nonlinear_arith)
                    requires
                        0 <= digits_val(fr6@),
                        digits_val(fr6@) < pow10(k as int),
                        pow10(k as int) * pow10(6 - k as int) == 1000000,
                        pow10(6 - k as int) >= 1,
                ;
            }
            scaled = fval * p;
        }
        Some((ival as i64) * 1000000 + (scaled as i64))
    }
}

/// A digit run's value is below ten to its length.
proof fn lemma_digits_bound(s: Seq<char>)
    requires
        all_digits(s),
    ensures
        0 <= digits_val(s) < pow10(s.len() as int),
    decreases s.len(),
{
    if s.len() == 0 {
    } else {
        lemma_digits_bound(s.drop_last());
        assert(digits_val(s) == digits_val(s.drop_last()) * 10 + digit_val(s.last()));
        assert(pow10(s.len() as int) == 10 * pow10(s.len() - 1));
        assert(digits_val(s.drop_last()) * 10 + digit_val(s.last()) < 10 * pow10(s.len() - 1))
            by (nonlinear_arith)
            requires
                0 <= digits_val(s.drop_last()) < pow10(s.len() - 1),
                0 <= digit_val(s.last()) <= 9,
        ;
    }
}

proof fn lemma_pow10_small(k: int)
    requires
        0 <= k <= 6,
    ensures
        1 <= pow10(k) <= 1000000,
{
    reveal_with_fuel(pow10, 8);
    if k == 0 {
        assert(pow10(0) == 1);
    } else if k == 1 {
        assert(pow10(1) == 10);
    } else if k == 2 {
        assert(pow10(2) == 100);
    } else if k == 3 {
        assert(pow10(3) == 1000);
    } else if k == 4 {
        assert(pow10(4) == 10000);
    } else if k == 5 {
        assert(pow10(5) == 100000);
    } else {
        assert(pow10(6) == 1000000);
    }
}

proof fn lemma_pow10_split(k: int)
    requires
        0 <= k <= 6,
    ensures
        pow10(k) * pow10(6 - k) == 1000000,
{
    reveal_with_fuel(pow10, 8);
    if k == 0 {
        assert(pow10(0) == 1 && pow10(6) == 1000000);
        assert(pow10(k) == 1 && pow10(6 - k) == 1000000);
        assert(pow10(k) * pow10(6 - k) == 1000000) by (nonlinear_arith)
            requires
                pow10(k) == 1,
                pow10(6 - k) == 1000000,
        ;
    } else if k == 1 {
        assert(pow10(1) == 10 && pow10(5) == 100000);
        assert(pow10(k) == 10 && pow10(6 - k) == 100000);
        assert(pow10(k) * pow10(6 - k) == 1000000) by (nonlinear_arith)
            requires
                pow10(k) == 10,
                pow10(6 - k) == 100000,
        ;
    } else if k == 2 {
        assert(pow10(2) == 100 && pow10(4) == 10000);
        assert(pow10(k) == 100 && pow10(6 - k) == 10000);
        assert(pow10(k) * pow10(6 - k) == 1000000) by (nonlinear_arith)
            requires
                pow10(k) == 100,
                pow10(6 - k) == 10000,
        ;
    } else if k == 3 {
        assert(pow10(3) == 1000 && pow10(3) == 1000);
        assert(pow10(k) == 1000 && pow10(6 - k) == 1000);
        assert(pow10(k) * pow10(6 - k) == 1000000) by (nonlinear_arith)
            requires
                pow10(k) == 1000,
                pow10(6 - k) == 1000,
        ;
    } else if k == 4 {
        assert(pow10(4) == 10000 && pow10(2) == 100);
        assert(pow10(k) == 10000 && pow10(6 - k) == 100);
        assert(pow10(k) * pow10(6 - k) == 1000000) by (nonlinear_arith)
            requires
                pow10(k) == 10000,
                pow10(6 - k) == 100,
        ;
    } else if k == 5 {
        assert(pow10(5) == 100000 && pow10(1) == 10);
        assert(pow10(k) == 100000 && pow10(6 - k) == 10);
        assert(pow10(k) * pow10(6 - k) == 1000000) by (nonlinear_arith)
            requires
                pow10(k) == 100000,
                pow10(6 - k) == 10,
        ;
    } else {
        assert(pow10(6) == 1000000 && pow10(0) == 1);
        assert(pow10(k) == 1000000 && pow10(6 - k) == 1);
        assert(pow10(k) * pow10(6 - k) == 1000000) by (nonlinear_arith)
            requires
                pow10(k) == 1000000,
                pow10(6 - k) == 1,
        ;
    }
}

/// Parses a decimal-point word, with an optional sign, into a microsecond
/// count.
pub fn parse_decimal_micros(s: &str) -> (r: Option<i64>)
    ensures
        match r {
            Some(v) => spec_decimal_micros(s@) == Some(v as int),
            None => spec_decimal_micros(s@) is None,
        },
{
    let n = s.unicode_len();
    if n >= 1 {
        let c0 = s.get_char(0);
        if c0 == '-' || c0 == '+' {
            let body = s.substring_char(1, n);
            return match parse_unsigned_decimal_micros(body) {
                Some(v) => Some(
                    if c0 == '-' {
                        -v
                    } else {
                        v
                    },
                ),
                None => None,
            };
        }
    }
    parse_unsigned_decimal_micros(s)
}

/// The character of one decimal digit value.
pub open spec fn digit_char(d: int) -> char {
    ((48 + d) as u8) as char
}

/// The digits of a positive number, most significant first; zero has none.
pub open spec fn dec_rec(n: int) -> Seq<char>
    decreases n,
{
    if n <= 0 {
        Seq::empty()
    } else {
        dec_rec(n / 10).push(digit_char(n % 10))
    }
}

/// The decimal spelling of an integer.
pub open spec fn dec_str(n: int) -> Seq<char> {
    if n == 0 {
        seq!['0']
    } else if n < 0 {
        seq!['-'] + dec_rec(-n)
    } else {
        dec_rec(n)
    }
}

/// Renders an unsigned number in decimal.
pub fn u64_to_dec(n: u64) -> (r: String)
    ensures
        r@ == dec_str(n as int),
{
    if n == 0 {
        let r = "0".to_owned();
        proof {
            reveal_strlit("0");
            assert(r@ =~= seq!['0']);
        }
        return r;
    }
    let mut digits: Vec<char> = Vec::new();
    let mut m: u64 = n;
    while m > 0
        invariant
            dec_rec(n as int) =~= dec_rec(m as int) + digits@.reverse(),
        decreases m,
    {
        let d: u64 = m % 10;
        let c: char = ((48 + d) as u8) as char;
        proof {
            assert(digits@.push(c).reverse() =~= seq![c] + digits@.reverse());
            assert(dec_rec(m as int) == dec_rec(m as int / 10).push(digit_char(m as int % 10)));
            assert(dec_rec(m as int / 10) + digits@.push(c).reverse() =~= dec_rec(m as int)
                + digits@.reverse());
        }
        digits.push(c);
        m = m / 10;
    }
    let len = digits.len();
    let mut out = String::new();
    let mut i: usize = len;
    while i > 0
        invariant
            len == digits@.len(),
            i <= len,
            out@ =~= digits@.reverse().subrange(0, len - i),
        decreases i,
    {
        i = i - 1;
        push_char(&mut out, digits[i]);
        proof {
            assert(out@ =~= digits@.reverse().subrange(0, len - i));
        }
    }
    proof {
        assert(digits@.reverse().subrange(0, len as int) =~= digits@.reverse());
        assert(out@ =~= dec_rec(n as int));
    }
    out
}

/// Renders a signed number in decimal.
pub fn i64_to_dec(v: i64) -> (r: String)
    ensures
        r@ == dec_str(v as int),
{
    if v < 0 {
        let mag: u64 = if v == i64::MIN {
            9223372036854775808u64
        } else {
            (-v) as u64
        };
        let mut out = "-".to_owned();
        let body = u64_to_dec(mag);
        out.append(body.as_str());
        proof {
            reveal_strlit("-");
            assert(out@ =~= seq!['-'] + dec_rec(-(v as int)));
        }
        out
    } else {
        u64_to_dec(v as u64)
    }
}

/// ASCII lowercasing of one character; other characters are unchanged.
pub open spec fn lower_char(c: char) -> char {
    if 'A' <= c && c <= 'Z' {
        ((c as u8) + 32) as char
    } else {
        c
    }
}

/// ASCII lowercasing of a character sequence.
pub open spec fn lower_seq(s: Seq<char>) -> Seq<char> {
    s.map_values(|c: char| lower_char(c))
}

/// Lowercases the ASCII letters of `s`; other characters are kept.
pub fn to_lower(s: &str) -> (r: String)
    ensures
        r@ == lower_seq(s@),
{
    let n = s.unicode_len();
    let mut out = String::new();
    let mut i: usize = 0;
    while i < n
        invariant
            n == s@.len(),
            i <= n,
            out@ == lower_seq(s@.subrange(0, i as int)),
        decreases n - i,
    {
        let c = s.get_char(i);
        let lc: char = if c >= 'A' && c <= 'Z' {
            ((c as u8) + 32) as char
        } else {
            c
        };
        push_char(&mut out, lc);
        proof {
            assert(s@.subrange(0, i + 1 as int).drop_last() =~= s@.subrange(0, i as int));
            assert(lower_seq(s@.subrange(0, i + 1 as int)) =~= lower_seq(
                s@.subrange(0, i as int),
            ).push(lower_char(s@[i as int])));
        }
        i = i + 1;
    }
    proof {
        assert(s@.subrange(0, n as int) =~= s@);
    }
    out
}

/// An ASCII letter or digit.
pub open spec fn is_alnum(c: char) -> bool {
    ('a' <= c && c <= 'z') || ('A' <= c && c <= 'Z') || is_digit(c)
}

/// Every character of `s` is an ASCII letter or digit.
pub open spec fn all_alnum(s: Seq<char>) -> bool {
    forall|j: int| 0 <= j < s.len() ==> is_alnum(#[trigger] s[j])
}

/// Whether `s` is nonempty and wholly alphanumeric.
pub fn check_alnum(s: &str) -> (r: bool)
    ensures
        r == (s@.len() > 0 && all_alnum(s@)),
{
    let n = s.unicode_len();
    if n == 0 {
        return false;
    }
    let mut i: usize = 0;
    while i < n
        invariant
            n == s@.len(),
            i <= n,
            forall|j: int| 0 <= j < i ==> is_alnum(#[trigger] s@[j]),
        decreases n - i,
    {
        let c = s.get_char(i);
        if !((c >= 'a' && c <= 'z') || (c >= 'A' && c <= 'Z') || (c >= '0' && c <= '9')) {
            return false;
        }
        i = i + 1;
    }
    true
}

/// The first position at or after `i` that does not hold an ASCII letter or
/// digit, or `s.len()`.
pub open spec fn alnum_end(s: Seq<char>, i: int) -> int
    decreases s.len() - i,
{
    if i < 0 || i >= s.len() {
        s.len() as int
    } else if is_alnum(s[i]) {
        alnum_end(s, i + 1)
    } else {
        i
    }
}

/// Finds the end of the ASCII-alphanumeric run that starts at `from`.
pub fn scan_alnum(s: &str, from: usize) -> (r: usize)
    requires
        from <= s@.len(),
    ensures
        r == alnum_end(s@, from as int),
        from <= r <= s@.len(),
        r < s@.len() ==> !is_alnum(s@[r as int]),
{
    let n = s.unicode_len();
    let mut i: usize = from;
    while i < n
        invariant
            n == s@.len(),
            from <= i <= n,
            alnum_end(s@, from as int) == alnum_end(s@, i as int),
        decreases n - i,
    {
        let c = s.get_char(i);
        if !((c >= 'a' && c <= 'z') || (c >= 'A' && c <= 'Z') || (c >= '0' && c <= '9')) {
            return i;
        }
        i = i + 1;
    }
    i
}

/// The first position at or after `i` that is not a space or tab, or
/// `s.len()`.
pub open spec fn skip_spaces(s: Seq<char>, i: int) -> int
    decreases s.len() - i,
{
    if i < 0 || i >= s.len() {
        s.len() as int
    } else if is_space(s[i]) {
        skip_spaces(s, i + 1)
    } else {
        i
    }
}

/// Finds the end of the space run that starts at `from`.
pub fn scan_spaces(s: &str, from: usize) -> (r: usize)
    requires
        from <= s@.len(),
    ensures
        r == skip_spaces(s@, from as int),
        from <= r <= s@.len(),
{
    let n = s.unicode_len();
    let mut i: usize = from;
    while i < n
        invariant
            n == s@.len(),
            from <= i <= n,
            skip_spaces(s@, from as int) == skip_spaces(s@, i as int),
        decreases n - i,
    {
        let c = s.get_char(i);
        if !(c == ' ' || c == '\t') {
            return i;
        }
        i = i + 1;
    }
    i
}

/// The first position at or after `i` that is not a decimal digit, or
/// `s.len()`.
pub open spec fn digits_end(s: Seq<char>, i: int) -> int
    decreases s.len() - i,
{
    if i < 0 || i >= s.len() {
        s.len() as int
    } else if is_digit(s[i]) {
        digits_end(s, i + 1)
    } else {
        i
    }
}

/// Finds the end of the digit run that starts at `from`.
pub fn scan_digits(s: &str, from: usize) -> (r: usize)
    requires
        from <= s@.len(),
    ensures
        r == digits_end(s@, from as int),
        from <= r <= s@.len(),
{
    let n = s.unicode_len();
    let mut i: usize = from;
    while i < n
        invariant
            n == s@.len(),
            from <= i <= n,
            digits_end(s@, from as int) == digits_end(s@, i as int),
        decreases n - i,
    {
        let c = s.get_char(i);
        if !(c >= '0' && c <= '9') {
            return i;
        }
        i = i + 1;
    }
    i
}

/// The characters of a digit run are digits.
pub proof fn lemma_digits_end_digits(s: Seq<char>, i: int)
    requires
        0 <= i <= s.len(),
    ensures
        i <= digits_end(s, i) <= s.len(),
        forall|j: int| i <= j < digits_end(s, i) ==> is_digit(#[trigger] s[j]),
    decreases s.len() - i,
{
    if i < s.len() && is_digit(s[i]) {
        lemma_digits_end_digits(s, i + 1);
    }
}

/// Character-by-character string equality.
pub fn str_eq(a: &str, b: &str) -> (r: bool)
    ensures
        r == (a@ == b@),
{
    let na = a.unicode_len();
    let nb = b.unicode_len();
    if na != nb {
        return false;
    }
    let mut i: usize = 0;
    while i < na
        invariant
            na == a@.len(),
            na == b@.len(),
            i <= na,
            forall|j: int| 0 <= j < i ==> a@[j] == b@[j],
        decreases na - i,
    {
        if a.get_char(i) != b.get_char(i) {
            return false;
        }
        i = i + 1;
    }
    proof {
        assert(a@ =~= b@);
    }
    true
}

} // verus!
