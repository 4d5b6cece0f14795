//! Character-level helpers for the text formats.

use vstd::prelude::*;
use vstd::string::StrSliceExecFns;
use vstd::string::StringSliceAdditionalSpecFns;

verus! {

broadcast use vstd::string::axiom_spec_iter;

/// The characters of a string, one element each.
pub fn chars_of(s: &str) -> (v: Vec<char>)
    ensures
        v@ == s@,
{
    let mut v: Vec<char> = Vec::new();
    for c in it: s.chars()
        invariant
            v@ == it.seq().take(it.index() as int),
    {
        v.push(c);
    }
    v
}

/// A string has at most as many characters as bytes.
pub proof fn lemma_char_count_at_most_bytes(s: &str)
    ensures
        s@.len() <= s.spec_bytes().len(),
{
    lemma_encode_utf8_len(s@);
}

/// A string without characters has no bytes.
pub proof fn lemma_empty_chars_no_bytes(s: &str)
    requires
        s@.len() == 0,
    ensures
        s.spec_bytes().len() == 0,
{
}

proof fn lemma_encode_utf8_len(chars: Seq<char>)
    ensures
        chars.len() <= vstd::utf8::encode_utf8(chars).len(),
    decreases chars.len(),
{
    if chars.len() > 0 {
        lemma_encode_utf8_len(chars.drop_first());
    }
}

/// Calls `std::str::from_utf8` on bytes that are all ASCII.
///
/// Trusted: ASCII bytes are valid UTF-8, so the call succeeds, and each byte
/// becomes the character of the same number.
#[verifier::external_body]
pub(crate) fn ascii_to_str(bytes: &[u8]) -> (s: &str)
    requires
        forall|i: int| 0 <= i < bytes@.len() ==> bytes@[i] < 128,
    ensures
        s@ == bytes@.map_values(|b: u8| b as char),
{
    std::str::from_utf8(bytes).unwrap()
}

/// Whether a string holds exactly the given characters.
pub fn chars_eq(s: &str, t: &[char]) -> (r: bool)
    ensures
        r == (s@ == t@),
{
    let c = chars_of(s);
    if c.len() != t.len() {
        return false;
    }
    let mut i: usize = 0;
    while i < c.len()
        invariant
            c@ == s@,
            c.len() == t@.len(),
            i <= c.len(),
            forall|k: int| 0 <= k < i ==> c@[k] == t@[k],
        decreases c.len() - i,
    {
        if c[i] != t[i] {
            return false;
        }
        i += 1;
    }
    assert(s@ =~= t@);
    true
}

/// The fields of a text separated by commas, as `str::split(',')` yields
/// them: one more field than there are commas, each possibly empty.
pub open spec fn spec_split_commas(s: Seq<char>) -> Seq<Seq<char>>
    decreases s.len(),
{
    if s.len() == 0 {
        seq![Seq::empty()]
    } else {
        let fields = spec_split_commas(s.drop_last());
        if s.last() == ',' {
            fields.push(Seq::empty())
        } else {
            fields.update(fields.len() - 1, fields.last().push(s.last()))
        }
    }
}

proof fn lemma_split_commas_nonempty(s: Seq<char>)
    ensures
        spec_split_commas(s).len() >= 1,
    decreases s.len(),
{
    if s.len() > 0 {
        lemma_split_commas_nonempty(s.drop_last());
    }
}

/// Splits a text at its commas.
pub fn split_commas(s: &str) -> (r: Vec<&str>)
    ensures
        r@.len() == spec_split_commas(s@).len(),
        forall|k: int| 0 <= k < r@.len() ==> #[trigger] r@[k]@ == spec_split_commas(s@)[k],
{
    let chars = chars_of(s);
    let mut r: Vec<&str> = Vec::new();
    let mut start: usize = 0;
    let mut i: usize = 0;
    proof {
        assert(s@.take(0) =~= Seq::<char>::empty());
    }
    while i < chars.len()
        invariant
            chars@ == s@,
            start <= i <= chars.len(),
            r@.len() + 1 == spec_split_commas(s@.take(i as int)).len(),
            forall|k: int| 0 <= k < r@.len() ==> #[trigger] r@[k]@ == spec_split_commas(
                s@.take(i as int),
            )[k],
            spec_split_commas(s@.take(i as int)).last() == s@.subrange(start as int, i as int),
        decreases chars.len() - i,
    {
        proof {
            assert(s@.take(i as int + 1).drop_last() =~= s@.take(i as int));
            lemma_split_commas_nonempty(s@.take(i as int));
        }
        if chars[i] == ',' {
            let field = s.substring_char(start, i);
            r.push(field);
            start = i + 1;
            proof {
                assert(s@.subrange(start as int, i as int + 1) =~= Seq::<char>::empty());
            }
        } else {
            proof {
                assert(s@.subrange(start as int, i as int + 1) =~= s@.subrange(
                    start as int,
                    i as int,
                ).push(s@[i as int]));
            }
        }
        i += 1;
    }
    proof {
        assert(s@.take(i as int) =~= s@);
    }
    let field = s.substring_char(start, chars.len());
    r.push(field);
    r
}

/// A decimal digit.
pub open spec fn spec_is_digit(c: char) -> bool {
    '0' <= c && c <= '9'
}

/// The value of a sequence of decimal digits, most significant first.
pub open spec fn spec_digits_value(s: Seq<char>) -> nat
    decreases s.len(),
{
    if s.len() == 0 {
        0
    } else {
        spec_digits_value(s.drop_last()) * 10 + ((s.last() as nat) - ('0' as nat)) as nat
    }
}

/// A non-empty sequence of decimal digits.
pub open spec fn spec_is_number(s: Seq<char>) -> bool {
    s.len() > 0 && forall|i: int| 0 <= i < s.len() ==> spec_is_digit(#[trigger] s[i])
}

/// `u32::from_str`: an optional `+`, then decimal digits whose value fits.
pub open spec fn spec_parse_u32(s: Seq<char>) -> Option<u32> {
    let d = if s.len() > 0 && s[0] == '+' {
        s.drop_first()
    } else {
        s
    };
    if spec_is_number(d) && spec_digits_value(d) <= u32::MAX {
        Some(spec_digits_value(d) as u32)
    } else {
        None
    }
}

/// `i32::from_str`: an optional `+` or `-`, then decimal digits whose signed
/// value fits.
pub open spec fn spec_parse_i32(s: Seq<char>) -> Option<i32> {
    if s.len() > 0 && s[0] == '-' {
        let d = s.drop_first();
        if spec_is_number(d) && spec_digits_value(d) <= 0x8000_0000 {
            Some((0 - spec_digits_value(d)) as i32)
        } else {
            None
        }
    } else {
        let d = if s.len() > 0 && s[0] == '+' {
            s.drop_first()
        } else {
            s
        };
        if spec_is_number(d) && spec_digits_value(d) <= 0x7fff_ffff {
            Some(spec_digits_value(d) as i32)
        } else {
            None
        }
    }
}

proof fn lemma_digits_value_grows(s: Seq<char>, k: int)
    requires
        0 <= k <= s.len(),
        forall|i: int| 0 <= i < s.len() ==> spec_is_digit(#[trigger] s[i]),
    ensures
        spec_digits_value(s.take(k)) <= spec_digits_value(s),
    decreases s.len() - k,
{
    if k < s.len() {
        lemma_digits_value_grows(s, k + 1);
        assert(s.take(k + 1).drop_last() =~= s.take(k));
    } else {
        assert(s.take(k) =~= s);
    }
}

/// The value of the digits `chars[from..]`, if they are a number of at most
/// `limit`.
fn parse_digits(chars: &Vec<char>, from: usize, limit: u64) -> (r: Option<u64>)
    requires
        from <= chars@.len(),
        limit <= 0x1_0000_0000,
    ensures
        r == (if spec_is_number(chars@.skip(from as int)) && spec_digits_value(
            chars@.skip(from as int),
        ) <= limit {
            Some(spec_digits_value(chars@.skip(from as int)) as u64)
        } else {
            None
        }),
{
    let ghost d = chars@.skip(from as int);
    if from == chars.len() {
        return None;
    }
    let mut value: u64 = 0;
    let mut i: usize = from;
    while i < chars.len()
        invariant
            from <= i <= chars@.len(),
            from < chars@.len(),
            d == chars@.skip(from as int),
            limit <= 0x1_0000_0000,
            forall|k: int| 0 <= k < i - from ==> spec_is_digit(#[trigger] d[k]),
            value == spec_digits_value(d.take(i - from)),
            value <= limit,
        decreases chars.len() - i,
    {
        let c = chars[i];
        if !('0' <= c && c <= '9') {
            assert(!spec_is_digit(d[i - from]));
            return None;
        }
        let digit = (c as u32 - '0' as u32) as u64;
        proof {
            assert(d.take(i - from + 1).drop_last() =~= d.take(i - from));
        }
        value = value * 10 + digit;
        if value > limit {
            proof {
                if spec_is_number(d) {
                    lemma_digits_value_grows(d, i - from + 1);
                }
            }
            return None;
        }
        i += 1;
    }
    proof {
        assert(d.take(i - from) =~= d);
    }
    Some(value)
}

/// Reads a `u32` as `u32::from_str` does.
pub fn parse_u32(s: &str) -> (r: Option<u32>)
    ensures
        r == spec_parse_u32(s@),
{
    let chars = chars_of(s);
    let from: usize = if chars.len() > 0 && chars[0] == '+' {
        1
    } else {
        0
    };
    proof {
        if from == 1 {
            assert(chars@.skip(1) =~= s@.drop_first());
        } else {
            assert(chars@.skip(0) =~= s@);
        }
    }
    match parse_digits(&chars, from, 0xffff_ffff) {
        Some(v) => Some(v as u32),
        None => None,
    }
}

/// Reads an `i32` as `i32::from_str` does.
pub fn parse_i32(s: &str) -> (r: Option<i32>)
    ensures
        r == spec_parse_i32(s@),
{
    let chars = chars_of(s);
    if chars.len() > 0 && chars[0] == '-' {
        proof {
            assert(chars@.skip(1) =~= s@.drop_first());
        }
        match parse_digits(&chars, 1, 0x8000_0000) {
            Some(v) => Some((0 - (v as i64)) as i32),
            None => None,
        }
    } else {
        let from: usize = if chars.len() > 0 && chars[0] == '+' {
            1
        } else {
            0
        };
        proof {
            if from == 1 {
                assert(chars@.skip(1) =~= s@.drop_first());
            } else {
                assert(chars@.skip(0) =~= s@);
            }
        }
        match parse_digits(&chars, from, 0x7fff_ffff) {
            Some(v) => Some(v as i32),
            None => None,
        }
    }
}

/// Collects characters into a `String` (`String::from_iter`).
///
/// Trusted: the string holds exactly the given characters, in order.
#[verifier::external_body]
pub(crate) fn string_from_chars(chars: &Vec<char>) -> (r: String)
    ensures
        r@ == chars@,
{
    chars.iter().collect()
}

/// Whether a text is a word, letter by letter in either case.
pub open spec fn spec_matches_word(s: Seq<char>, lower: Seq<char>, upper: Seq<char>) -> bool {
    s.len() == lower.len() && forall|i: int|
        0 <= i < s.len() ==> (s[i] == lower[i] || s[i] == upper[i])
}

/// The end of the mantissa of a decimal number: the first index from `i` on
/// that holds neither a digit nor a point.
pub open spec fn spec_mantissa_end(t: Seq<char>, i: int) -> int
    decreases t.len() - i,
{
    if i < 0 || i >= t.len() {
        t.len() as int
    } else if spec_is_digit(t[i]) || t[i] == '.' {
        spec_mantissa_end(t, i + 1)
    } else {
        i
    }
}

/// The digits of an exponent, after an optional sign.
pub open spec fn spec_is_exponent_digits(x: Seq<char>) -> bool {
    let y = if x.len() > 0 && (x[0] == '+' || x[0] == '-') {
        x.drop_first()
    } else {
        x
    };
    spec_is_number(y)
}

/// A decimal number: digits with at most one point, at least one digit, and
/// an optional exponent (`e` or `E`, an optional sign, digits).
pub open spec fn spec_is_decimal(t: Seq<char>) -> bool {
    let k = spec_mantissa_end(t, 0);
    &&& exists|i: int| 0 <= i < k && spec_is_digit(#[trigger] t[i])
    &&& forall|i: int, j: int| 0 <= i < j < k && #[trigger] t[i] == '.' ==> #[trigger] t[j] != '.'
    &&& (k == t.len() || ((t[k] == 'e' || t[k] == 'E') && spec_is_exponent_digits(t.skip(k + 1))))
}

/// A floating-point literal as the standard library's `FromStr` for
/// floating-point numbers accepts it: an optional sign, then `inf`,
/// `infinity` or `nan` in any case, or a decimal number.
pub open spec fn spec_is_float_literal(s: Seq<char>) -> bool {
    let t = if s.len() > 0 && (s[0] == '+' || s[0] == '-') {
        s.drop_first()
    } else {
        s
    };
    ||| spec_matches_word(t, seq!['i', 'n', 'f'], seq!['I', 'N', 'F'])
    ||| spec_matches_word(
        t,
        seq!['i', 'n', 'f', 'i', 'n', 'i', 't', 'y'],
        seq!['I', 'N', 'F', 'I', 'N', 'I', 'T', 'Y'],
    )
    ||| spec_matches_word(t, seq!['n', 'a', 'n'], seq!['N', 'A', 'N'])
    ||| spec_is_decimal(t)
}

fn matches_word(t: &Vec<char>, lower: &[char], upper: &[char]) -> (r: bool)
    requires
        lower@.len() == upper@.len(),
    ensures
        r == spec_matches_word(t@, lower@, upper@),
{
    if t.len() != lower.len() {
        return false;
    }
    let mut i: usize = 0;
    while i < t.len()
        invariant
            t@.len() == lower@.len() == upper@.len(),
            i <= t@.len(),
            forall|k: int| 0 <= k < i ==> (t@[k] == lower@[k] || t@[k] == upper@[k]),
        decreases t.len() - i,
    {
        if t[i] != lower[i] && t[i] != upper[i] {
            return false;
        }
        i += 1;
    }
    true
}

proof fn lemma_mantissa_end_bounds(t: Seq<char>, i: int)
    requires
        0 <= i <= t.len(),
    ensures
        i <= spec_mantissa_end(t, i) <= t.len(),
        forall|j: int| i <= j < spec_mantissa_end(t, i) ==> spec_is_digit(#[trigger] t[j]) || t[j] == '.',
        spec_mantissa_end(t, i) < t.len() ==> !spec_is_digit(t[spec_mantissa_end(t, i)]) && t[spec_mantissa_end(t, i)] != '.',
    decreases t.len() - i,
{
    if i < t.len() && (spec_is_digit(t[i]) || t[i] == '.') {
        lemma_mantissa_end_bounds(t, i + 1);
    }
}

/// Whether a text is a floating-point literal as the standard library's
/// parser accepts it.
pub fn is_float_literal(s: &str) -> (r: bool)
    ensures
        r == spec_is_float_literal(s@),
{
    let chars = chars_of(s);
    let start: usize = if chars.len() > 0 && (chars[0] == '+' || chars[0] == '-') {
        1
    } else {
        0
    };
    let mut t: Vec<char> = Vec::new();
    let mut p: usize = start;
    while p < chars.len()
        invariant
            start <= p <= chars@.len(),
            t@ == chars@.subrange(start as int, p as int),
        decreases chars.len() - p,
    {
        t.push(chars[p]);
        p += 1;
        assert(t@ =~= chars@.subrange(start as int, p as int));
    }
    let ghost tv = if s@.len() > 0 && (s@[0] == '+' || s@[0] == '-') {
        s@.drop_first()
    } else {
        s@
    };
    assert(t@ =~= tv);
    proof {
        assert(['i', 'n', 'f']@ =~= seq!['i', 'n', 'f']);
        assert(['I', 'N', 'F']@ =~= seq!['I', 'N', 'F']);
        assert(['i', 'n', 'f', 'i', 'n', 'i', 't', 'y']@ =~= seq!['i', 'n', 'f', 'i', 'n', 'i', 't', 'y']);
        assert(['I', 'N', 'F', 'I', 'N', 'I', 'T', 'Y']@ =~= seq!['I', 'N', 'F', 'I', 'N', 'I', 'T', 'Y']);
        assert(['n', 'a', 'n']@ =~= seq!['n', 'a', 'n']);
        assert(['N', 'A', 'N']@ =~= seq!['N', 'A', 'N']);
    }
    if matches_word(&t, &['i', 'n', 'f'], &['I', 'N', 'F']) || matches_word(
        &t,
        &['i', 'n', 'f', 'i', 'n', 'i', 't', 'y'],
        &['I', 'N', 'F', 'I', 'N', 'I', 'T', 'Y'],
    ) || matches_word(&t, &['n', 'a', 'n'], &['N', 'A', 'N']) {
        return true;
    }
    let r = is_decimal(&t);
    r
}

fn is_decimal(t: &Vec<char>) -> (r: bool)
    ensures
        r == spec_is_decimal(t@),
{
    let ghost tv = t@;
    proof {
        lemma_mantissa_end_bounds(tv, 0);
    }
    let ghost k = spec_mantissa_end(tv, 0);
    let mut i: usize = 0;
    let mut seen_dot = false;
    let mut seen_digit = false;
    let mut dot_at: usize = 0;
    while i < t.len() && (('0' <= t[i] && t[i] <= '9') || t[i] == '.')
        invariant
            tv == t@,
            k == spec_mantissa_end(tv, 0),
            0 <= i <= k <= tv.len(),
            spec_mantissa_end(tv, i as int) == k,
            seen_digit <==> exists|j: int| 0 <= j < i && spec_is_digit(#[trigger] tv[j]),
            seen_dot ==> dot_at < i && tv[dot_at as int] == '.',
            !seen_dot ==> forall|j: int| 0 <= j < i ==> #[trigger] tv[j] != '.',
            forall|a: int, b: int| 0 <= a < b < i && #[trigger] tv[a] == '.' ==> #[trigger] tv[b] != '.',
            seen_dot ==> forall|j: int| 0 <= j < i && j != dot_at ==> #[trigger] tv[j] != '.',
        decreases t.len() - i,
    {
        proof {
            lemma_mantissa_end_bounds(tv, i as int + 1);
        }
        if t[i] == '.' {
            if seen_dot {
                proof {
                    assert(tv[dot_at as int] == '.' && tv[i as int] == '.');
                    assert(dot_at < i && (i as int) < k);
                }
                return false;
            }
            seen_dot = true;
            dot_at = i;
        } else {
            seen_digit = true;
            assert(spec_is_digit(tv[i as int]));
        }
        i += 1;
    }
    assert(i as int == k);
    if !seen_digit {
        return false;
    }
    if i == t.len() {
        return true;
    }
    if !(t[i] == 'e' || t[i] == 'E') {
        return false;
    }
    let ghost x = tv.skip(i as int + 1);
    let mut j: usize = i + 1;
    if j < t.len() && (t[j] == '+' || t[j] == '-') {
        j += 1;
    }
    let ghost y = tv.skip(j as int);
    assert(y =~= (if x.len() > 0 && (x[0] == '+' || x[0] == '-') {
        x.drop_first()
    } else {
        x
    }));
    if j == t.len() {
        return false;
    }
    let j0 = j;
    assert(spec_is_decimal(tv) == spec_is_number(y));
    while j < t.len()
        invariant
            spec_is_decimal(tv) == spec_is_number(y),
            tv == t@,
            j0 <= j <= tv.len(),
            y == tv.skip(j0 as int),
            forall|a: int| 0 <= a < j - j0 ==> spec_is_digit(#[trigger] y[a]),
        decreases t.len() - j,
    {
        if !('0' <= t[j] && t[j] <= '9') {
            assert(!spec_is_digit(y[j - j0]));
            return false;
        }
        j += 1;
    }
    true
}

/// Whether a character has the Unicode `White_Space` property, which is what
/// `char::is_whitespace` tests.
pub open spec fn spec_is_whitespace(c: char) -> bool {
    let n = c as u32;
    (0x9 <= n <= 0xd) || n == 0x20 || n == 0x85 || n == 0xa0 || n == 0x1680 || (0x2000 <= n
        <= 0x200a) || n == 0x2028 || n == 0x2029 || n == 0x202f || n == 0x205f || n == 0x3000
}

/// A text without its leading whitespace.
pub open spec fn spec_trim_start(s: Seq<char>) -> Seq<char>
    decreases s.len(),
{
    if s.len() > 0 && spec_is_whitespace(s[0]) {
        spec_trim_start(s.drop_first())
    } else {
        s
    }
}

/// A text without its trailing whitespace.
pub open spec fn spec_trim_end(s: Seq<char>) -> Seq<char>
    decreases s.len(),
{
    if s.len() > 0 && spec_is_whitespace(s.last()) {
        spec_trim_end(s.drop_last())
    } else {
        s
    }
}

/// A text without its leading and trailing whitespace.
pub open spec fn spec_trim(s: Seq<char>) -> Seq<char> {
    spec_trim_end(spec_trim_start(s))
}

/// Calls `str::trim`.
///
/// Trusted: as `str::trim` is documented, the result is the text with its
/// leading and trailing whitespace removed, whitespace being the characters
/// with the Unicode `White_Space` property.
#[verifier::external_body]
pub(crate) fn trim(s: &str) -> (r: &str)
    ensures
        r@ == spec_trim(s@),
{
    s.trim()
}

/// Appends the characters of a text.
pub fn push_str(v: &mut Vec<char>, s: &str)
    ensures
        final(v)@ == old(v)@ + s@,
{
    let chars = chars_of(s);
    let mut i: usize = 0;
    while i < chars.len()
        invariant
            i <= chars@.len(),
            chars@ == s@,
            v@ == old(v)@ + chars@.take(i as int),
        decreases chars@.len() - i,
    {
        v.push(chars[i]);
        i += 1;
        assert(v@ =~= old(v)@ + chars@.take(i as int));
    }
    assert(chars@.take(i as int) =~= chars@);
}

/// The character of a digit below ten.
pub open spec fn spec_digit_char(d: nat) -> char {
    (48 + d) as char
}

/// A number written in decimal, without leading zeros.
pub open spec fn spec_decimal(n: nat) -> Seq<char>
    decreases n,
{
    if n < 10 {
        seq![spec_digit_char(n)]
    } else {
        spec_decimal(n / 10).push(spec_digit_char(n % 10))
    }
}

proof fn lemma_decimal_digits(n: nat)
    ensures
        spec_is_number(spec_decimal(n)),
        spec_digits_value(spec_decimal(n)) == n,
    decreases n,
{
    let d = spec_decimal(n);
    let last = n % 10;
    assert(spec_digit_char(last) as nat == 48 + last);
    assert('0' as nat == 48);
    if n < 10 {
        assert(d.drop_last() =~= Seq::<char>::empty());
        assert(spec_digits_value(d.drop_last()) == 0);
        assert(d.last() == spec_digit_char(last));
        assert(spec_digits_value(d) == spec_digits_value(d.drop_last()) * 10 + ((d.last() as nat)
            - ('0' as nat)) as nat);
    } else {
        lemma_decimal_digits(n / 10);
        let p = spec_decimal(n / 10);
        assert(d.drop_last() =~= p);
        assert(d.last() == spec_digit_char(last));
        assert(n == (n / 10) * 10 + last);
        assert(spec_digits_value(d) == spec_digits_value(p) * 10 + ((d.last() as nat) - ('0' as nat)) as nat);
        assert forall|i: int| 0 <= i < d.len() implies spec_is_digit(#[trigger] d[i]) by {
            if i < p.len() {
                assert(d[i] == p[i]);
            }
        }
    }
}

/// Writing a number in decimal and reading it back gives the number: the
/// text is all digits, and their value is the number.
pub proof fn law_decimal_reads_back(n: nat)
    ensures
        spec_is_number(spec_decimal(n)),
        spec_digits_value(spec_decimal(n)) == n,
        n <= u32::MAX ==> spec_parse_u32(spec_decimal(n)) == Some(n as u32),
        n <= i32::MAX ==> spec_parse_i32(spec_decimal(n)) == Some(n as i32),
{
    lemma_decimal_digits(n);
}

/// Writing an integer in decimal, with its sign, and reading it back as an
/// `i32` gives the integer.
pub proof fn law_signed_decimal_reads_back(n: i32)
    ensures
        spec_parse_i32(spec_signed_decimal(n as int)) == Some(n),
{
    if n < 0 {
        lemma_decimal_digits((-n) as nat);
        let t = spec_signed_decimal(n as int);
        assert(t.drop_first() =~= spec_decimal((-n) as nat));
    } else {
        lemma_decimal_digits(n as nat);
    }
}

/// An integer written in decimal, with a minus sign when negative.
pub open spec fn spec_signed_decimal(n: int) -> Seq<char> {
    if n < 0 {
        seq!['-'] + spec_decimal((-n) as nat)
    } else {
        spec_decimal(n as nat)
    }
}

/// A number written in binary, without leading zeros.
pub open spec fn spec_binary(n: nat) -> Seq<char>
    decreases n,
{
    if n < 2 {
        seq![spec_digit_char(n)]
    } else {
        spec_binary(n / 2).push(spec_digit_char(n % 2))
    }
}

/// A text with zeros in front, to at least `width` characters.
pub open spec fn spec_zero_padded(s: Seq<char>, width: nat) -> Seq<char> {
    if s.len() < width {
        Seq::new((width - s.len()) as nat, |i: int| '0') + s
    } else {
        s
    }
}

fn digit_char(d: u32) -> (c: char)
    requires
        d < 10,
    ensures
        c == spec_digit_char(d as nat),
{
    let b: u8 = 48 + d as u8;
    b as char
}

/// Appends a number written in decimal.
pub fn push_decimal(v: &mut Vec<char>, n: u32)
    ensures
        final(v)@ == old(v)@ + spec_decimal(n as nat),
    decreases n,
{
    if n >= 10 {
        push_decimal(v, n / 10);
    }
    v.push(digit_char(n % 10));
    assert(v@ =~= old(v)@ + spec_decimal(n as nat));
}

/// Appends an integer written in decimal.
pub fn push_signed_decimal(v: &mut Vec<char>, n: i32)
    ensures
        final(v)@ == old(v)@ + spec_signed_decimal(n as int),
{
    if n < 0 {
        v.push('-');
        let magnitude: u32 = (-(n as i64)) as u32;
        push_decimal(v, magnitude);
        assert(v@ =~= old(v)@ + spec_signed_decimal(n as int));
    } else {
        push_decimal(v, n as u32);
    }
}

/// Appends a number written in binary, with zeros in front to at least
/// `width` digits.
pub fn push_binary(v: &mut Vec<char>, n: u32, width: usize)
    ensures
        final(v)@ == old(v)@ + spec_zero_padded(spec_binary(n as nat), width as nat),
{
    let mut digits: Vec<char> = Vec::new();
    push_binary_digits(&mut digits, n);
    let mut padding = digits.len();
    while padding < width
        invariant
            digits@ == spec_binary(n as nat),
            digits@.len() <= padding <= width || (padding == digits@.len() && width < padding),
            v@ == old(v)@ + Seq::new((padding - digits@.len()) as nat, |i: int| '0'),
        decreases width - padding,
    {
        v.push('0');
        padding += 1;
        assert(v@ =~= old(v)@ + Seq::new((padding - digits@.len()) as nat, |i: int| '0'));
    }
    let mut i: usize = 0;
    let ghost before = v@;
    while i < digits.len()
        invariant
            i <= digits@.len(),
            v@ == before + digits@.take(i as int),
        decreases digits@.len() - i,
    {
        v.push(digits[i]);
        i += 1;
        assert(v@ =~= before + digits@.take(i as int));
    }
    assert(digits@.take(i as int) =~= digits@);
    assert(v@ =~= old(v)@ + spec_zero_padded(spec_binary(n as nat), width as nat));
}

fn push_binary_digits(v: &mut Vec<char>, n: u32)
    ensures
        final(v)@ == old(v)@ + spec_binary(n as nat),
    decreases n,
{
    if n >= 2 {
        push_binary_digits(v, n / 2);
    }
    v.push(digit_char(n % 2));
    assert(v@ =~= old(v)@ + spec_binary(n as nat));
}

} // verus!
