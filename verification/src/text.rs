//! Small pieces of text handling shared by every module that renders a message or parses a
//! stored value: decimal rendering of integers, the ASCII digit alphabet, and the whitespace
//! rule that `str::trim` applies.

use vstd::prelude::*;

verus! {

/// The ASCII character for a decimal digit `d` (`0..=9`).
pub open spec fn digit_char(d: int) -> char {
    (48 + d) as char
}

/// Whether `c` is one of the ASCII digits `0`..=`9`.
pub open spec fn is_digit(c: char) -> bool {
    '0' <= c && c <= '9'
}

/// The value of an ASCII digit.
pub open spec fn digit_value(c: char) -> int {
    (c as int) - 48
}

/// The decimal rendering of a natural number, most significant digit first, with no
/// leading zeros (so `0` renders as `"0"`).
pub open spec fn nat_decimal(n: nat) -> Seq<char>
    decreases n,
{
    if n < 10 {
        seq![digit_char(n as int)]
    } else {
        nat_decimal(n / 10).push(digit_char((n % 10) as int))
    }
}

/// The decimal rendering of an integer: a leading `-` for a negative value, then its
/// magnitude. What `format!("{}", n)` produces for any integer type.
pub open spec fn int_decimal(n: int) -> Seq<char> {
    if n < 0 {
        seq!['-'] + nat_decimal((-n) as nat)
    } else {
        nat_decimal(n as nat)
    }
}

/// The numeric value of a sequence of ASCII digits, most significant first.
pub open spec fn digits_value(s: Seq<char>) -> int
    decreases s.len(),
{
    if s.len() == 0 {
        0
    } else {
        digits_value(s.drop_last()) * 10 + digit_value(s.last())
    }
}

/// Whether every character of `s` is an ASCII digit.
pub open spec fn all_digits(s: Seq<char>) -> bool {
    forall|i: int| 0 <= i < s.len() ==> #[trigger] is_digit(s[i])
}

/// The characters Rust's `char::is_whitespace` accepts: Unicode's `White_Space` property.
pub open spec fn is_whitespace(c: char) -> bool {
    ||| ('\u{9}' <= c && c <= '\u{d}')
    ||| c == ' '
    ||| c == '\u{85}'
    ||| c == '\u{a0}'
    ||| c == '\u{1680}'
    ||| ('\u{2000}' <= c && c <= '\u{200a}')
    ||| c == '\u{2028}'
    ||| c == '\u{2029}'
    ||| c == '\u{202f}'
    ||| c == '\u{205f}'
    ||| c == '\u{3000}'
}

/// Index of the first non-whitespace character of `s`, or `s.len()` when there is none.
pub open spec fn first_non_ws(s: Seq<char>) -> int
    decreases s.len(),
{
    if s.len() == 0 {
        0
    } else if is_whitespace(s[0]) {
        1 + first_non_ws(s.drop_first())
    } else {
        0
    }
}

/// One past the index of the last non-whitespace character of `s`, or `0` when there is
/// none.
pub open spec fn end_non_ws(s: Seq<char>) -> int
    decreases s.len(),
{
    if s.len() == 0 {
        0
    } else if is_whitespace(s.last()) {
        end_non_ws(s.drop_last())
    } else {
        s.len() as int
    }
}

/// `s` with leading and trailing whitespace removed — what `str::trim` returns.
pub open spec fn trimmed(s: Seq<char>) -> Seq<char> {
    if end_non_ws(s) <= first_non_ws(s) {
        Seq::empty()
    } else {
        s.subrange(first_non_ws(s), end_non_ws(s))
    }
}

/// Whether `s` is empty once trimmed: every character is whitespace.
pub open spec fn is_blank(s: Seq<char>) -> bool {
    forall|i: int| 0 <= i < s.len() ==> #[trigger] is_whitespace(s[i])
}

pub proof fn lemma_first_non_ws_bounds(s: Seq<char>)
    ensures
        0 <= first_non_ws(s) <= s.len(),
        forall|i: int| 0 <= i < first_non_ws(s) ==> #[trigger] is_whitespace(s[i]),
        first_non_ws(s) < s.len() ==> !is_whitespace(s[first_non_ws(s)]),
    decreases s.len(),
{
    if s.len() > 0 && is_whitespace(s[0]) {
        lemma_first_non_ws_bounds(s.drop_first());
        assert forall|i: int| 0 <= i < first_non_ws(s) implies #[trigger] is_whitespace(s[i]) by {
            if i > 0 {
                assert(s[i] == s.drop_first()[i - 1]);
            }
        }
    }
}

pub proof fn lemma_end_non_ws_bounds(s: Seq<char>)
    ensures
        0 <= end_non_ws(s) <= s.len(),
        forall|i: int| end_non_ws(s) <= i < s.len() ==> #[trigger] is_whitespace(s[i]),
        end_non_ws(s) > 0 ==> !is_whitespace(s[end_non_ws(s) - 1]),
    decreases s.len(),
{
    if s.len() > 0 && is_whitespace(s.last()) {
        lemma_end_non_ws_bounds(s.drop_last());
        assert forall|i: int| end_non_ws(s) <= i < s.len() implies #[trigger] is_whitespace(
            s[i],
        ) by {
            if i < s.len() - 1 {
                assert(s[i] == s.drop_last()[i]);
            }
        }
    }
}

/// A blank sequence trims to nothing, and a sequence that trims to nothing is blank.
pub proof fn lemma_trimmed_empty_iff_blank(s: Seq<char>)
    ensures
        trimmed(s).len() == 0 <==> is_blank(s),
{
    lemma_first_non_ws_bounds(s);
    lemma_end_non_ws_bounds(s);
    if trimmed(s).len() == 0 {
        assert forall|i: int| 0 <= i < s.len() implies #[trigger] is_whitespace(s[i]) by {
            if i >= first_non_ws(s) && i < end_non_ws(s) {
                assert(false);
            }
        }
    } else {
        assert(!is_whitespace(s[first_non_ws(s)]));
    }
}

/// The digits of a number's text: everything after an optional leading sign character
/// `sign`.
pub open spec fn unsigned_part(s: Seq<char>, sign: char) -> Seq<char> {
    if s.len() > 0 && s[0] == sign {
        s.drop_first()
    } else {
        s
    }
}

/// Whether `s` is the text `u32::from_str` accepts: an optional `+`, then one or more ASCII
/// digits whose value fits in a `u32`.
pub open spec fn u32_text(s: Seq<char>) -> bool {
    let digits = unsigned_part(s, '+');
    &&& digits.len() > 0
    &&& all_digits(digits)
    &&& digits_value(digits) <= u32::MAX
}

/// The value of text accepted by [`u32_text`].
pub open spec fn u32_value(s: Seq<char>) -> int {
    digits_value(unsigned_part(s, '+'))
}

/// Whether `s` starts with a minus sign.
pub open spec fn negative_text(s: Seq<char>) -> bool {
    s.len() > 0 && s[0] == '-'
}

/// The digits of a signed number's text: everything after an optional `+` or `-`.
pub open spec fn signed_digits(s: Seq<char>) -> Seq<char> {
    if s.len() > 0 && (s[0] == '+' || s[0] == '-') {
        s.drop_first()
    } else {
        s
    }
}

/// The value `i64::from_str` reads from `s`, ignoring range.
pub open spec fn i64_value(s: Seq<char>) -> int {
    if negative_text(s) {
        -digits_value(signed_digits(s))
    } else {
        digits_value(signed_digits(s))
    }
}

/// Whether `s` is the text `i64::from_str` accepts: an optional sign, then one or more ASCII
/// digits, with a value that fits in an `i64`.
pub open spec fn i64_text(s: Seq<char>) -> bool {
    let digits = signed_digits(s);
    &&& digits.len() > 0
    &&& all_digits(digits)
    &&& i64::MIN <= i64_value(s) <= i64::MAX
}

/// The digits of `s` from `start` on, as a number, when they are one or more ASCII digits
/// worth at most `limit`.
fn parse_digits(s: &str, start: usize, limit: u64) -> (r: Option<u64>)
    requires
        start <= s@.len(),
    ensures
        r is Some <==> (start < s@.len() && all_digits(s@.subrange(start as int, s@.len() as int))
            && digits_value(s@.subrange(start as int, s@.len() as int)) <= limit),
        r matches Some(v) ==> v as int == digits_value(s@.subrange(start as int, s@.len() as int)),
{
    let n = s.unicode_len();
    let ghost digits = s@.subrange(start as int, n as int);
    if start == n {
        return None;
    }
    let mut i: usize = start;
    let mut value: u128 = 0;
    while i < n
        invariant
            n == s@.len(),
            start <= i <= n,
            start < n,
            digits == s@.subrange(start as int, n as int),
            all_digits(s@.subrange(start as int, i as int)),
            value as int == digits_value(s@.subrange(start as int, i as int)),
            value <= limit,
        decreases n - i,
    {
        let c = s.get_char(i);
        if !('0' <= c && c <= '9') {
            proof {
                assert(digits[i - start] == c);
                assert(!is_digit(digits[i - start]));
            }
            return None;
        }
        let d: u128 = ((c as u32) - 48) as u128;
        let ghost prefix = s@.subrange(start as int, i as int);
        let ghost next = s@.subrange(start as int, i + 1);
        assert(next.drop_last() =~= prefix);
        assert(next.last() == c);
        value = value * 10 + d;
        proof {
            assert forall|k: int| 0 <= k < next.len() implies #[trigger] is_digit(next[k]) by {
                if k < prefix.len() {
                    assert(next[k] == prefix[k]);
                }
            }
        }
        if value > limit as u128 {
            proof {
                if all_digits(digits) {
                    lemma_digits_value_prefix_bound(digits, (i + 1 - start) as int);
                    assert(digits.subrange(0, i + 1 - start) =~= next);
                }
            }
            return None;
        }
        i = i + 1;
    }
    Some(value as u64)
}

/// A sequence of digits is worth at least what any prefix of it is worth.
proof fn lemma_digits_value_prefix_bound(s: Seq<char>, k: int)
    requires
        0 <= k <= s.len(),
        all_digits(s),
    ensures
        digits_value(s) >= digits_value(s.subrange(0, k)),
    decreases s.len() - k,
{
    if k < s.len() {
        lemma_digits_value_prefix_bound(s, k + 1);
        let p = s.subrange(0, k + 1);
        assert(p.drop_last() =~= s.subrange(0, k));
        assert(is_digit(s[k]));
        assert(p.last() == s[k]);
        assert forall|i: int| 0 <= i < k implies #[trigger] is_digit(s.subrange(0, k)[i]) by {
            assert(s.subrange(0, k)[i] == s[i]);
        }
        lemma_digits_value_nonneg(s.subrange(0, k));
    } else {
        assert(s.subrange(0, k) =~= s);
    }
}

proof fn lemma_digits_value_nonneg(s: Seq<char>)
    requires
        all_digits(s),
    ensures
        digits_value(s) >= 0,
    decreases s.len(),
{
    if s.len() > 0 {
        assert(is_digit(s.last()));
        assert forall|i: int| 0 <= i < s.drop_last().len() implies #[trigger] is_digit(
            s.drop_last()[i],
        ) by {
            assert(s.drop_last()[i] == s[i]);
        }
        lemma_digits_value_nonneg(s.drop_last());
    }
}

/// `s.parse::<u32>()`, as an `Option`.
pub fn parse_u32(s: &str) -> (r: Option<u32>)
    ensures
        r is Some <==> u32_text(s@),
        r matches Some(v) ==> v as int == u32_value(s@),
{
    let start: usize = if s.unicode_len() > 0 && s.get_char(0) == '+' {
        1
    } else {
        0
    };
    proof {
        assert(unsigned_part(s@, '+') =~= s@.subrange(start as int, s@.len() as int));
    }
    match parse_digits(s, start, 4_294_967_295u64) {
        Some(v) => Some(v as u32),
        None => None,
    }
}

/// `s.parse::<i64>()`, as an `Option`.
pub fn parse_i64(s: &str) -> (r: Option<i64>)
    ensures
        r is Some <==> i64_text(s@),
        r matches Some(v) ==> v as int == i64_value(s@),
{
    let n = s.unicode_len();
    let negative = n > 0 && s.get_char(0) == '-';
    let start: usize = if n > 0 && (s.get_char(0) == '+' || s.get_char(0) == '-') {
        1
    } else {
        0
    };
    proof {
        assert(signed_digits(s@) =~= s@.subrange(start as int, s@.len() as int));
    }
    let limit: u64 = if negative {
        9_223_372_036_854_775_808u64
    } else {
        9_223_372_036_854_775_807u64
    };
    match parse_digits(s, start, limit) {
        Some(v) => {
            if negative {
                if v == 9_223_372_036_854_775_808u64 {
                    Some(i64::MIN)
                } else {
                    Some(-(v as i64))
                }
            } else {
                Some(v as i64)
            }
        },
        None => {
            proof {
                if signed_digits(s@).len() > 0 && all_digits(signed_digits(s@)) {
                    lemma_digits_value_nonneg(signed_digits(s@));
                }
            }
            None
        },
    }
}

/// `c` with an ASCII capital letter turned into its small letter; every other character as
/// it is.
pub open spec fn ascii_lower(c: char) -> char {
    if 'A' <= c && c <= 'Z' {
        ((c as u32) + 32) as char
    } else {
        c
    }
}

/// Whether two texts are equal once ASCII letters are compared without regard to case — what
/// `str::eq_ignore_ascii_case` decides.
pub open spec fn eq_ignoring_ascii_case(a: Seq<char>, b: Seq<char>) -> bool {
    &&& a.len() == b.len()
    &&& forall|i: int| 0 <= i < a.len() ==> #[trigger] ascii_lower(a[i]) == ascii_lower(b[i])
}

/// What `str::to_lowercase` returns for a string: its Unicode lower-case mapping.
pub uninterp spec fn lowercased(s: Seq<char>) -> Seq<char>;

/// `str::to_lowercase`: the Unicode lower-case mapping of `s`. Beyond ASCII the mapping is
/// left to the name; on ASCII text it lowers `A`-`Z` and keeps every other character, as the
/// Unicode mapping does.
#[verifier::external_body]
pub(crate) fn lowercase(s: &str) -> (r: String)
    ensures
        r@ == lowercased(s@),
        (forall|i: int| 0 <= i < s@.len() ==> (s@[i] as u32) < 0x80) ==> r@ == s@.map_values(
            |c: char| ascii_lower(c),
        ),
{
    s.to_lowercase()
}

/// What `str::to_uppercase` returns for a string: its Unicode upper-case mapping.
pub uninterp spec fn uppercased(s: Seq<char>) -> Seq<char>;

/// The upper-case form of an ASCII character; any other character as it is.
pub open spec fn ascii_upper(c: char) -> char {
    if 'a' <= c && c <= 'z' {
        ((c as u32) - 32) as char
    } else {
        c
    }
}

/// `str::to_uppercase`: the Unicode upper-case mapping of `s`. Beyond ASCII the mapping is
/// left to the name; on ASCII text it raises `a`-`z` and keeps every other character, as the
/// Unicode mapping does.
#[verifier::external_body]
pub(crate) fn uppercase(s: &str) -> (r: String)
    ensures
        r@ == uppercased(s@),
        (forall|i: int| 0 <= i < s@.len() ==> (s@[i] as u32) < 0x80) ==> r@ == s@.map_values(
            |c: char| ascii_upper(c),
        ),
{
    s.to_uppercase()
}

/// How many bytes a character takes in UTF-8.
pub open spec fn utf8_width(c: char) -> int {
    if (c as u32) < 0x80 {
        1
    } else if (c as u32) < 0x800 {
        2
    } else if (c as u32) < 0x10000 {
        3
    } else {
        4
    }
}

/// How many leading characters of `s` take exactly `w` bytes in UTF-8, if some do.
pub open spec fn chars_in_width(s: Seq<char>, w: int) -> Option<int>
    decreases s.len(),
{
    if w == 0 {
        Some(0)
    } else if w < 0 || s.len() == 0 {
        None
    } else {
        match chars_in_width(s.drop_first(), w - utf8_width(s[0])) {
            Some(k) => Some(k + 1),
            None => None,
        }
    }
}

/// The first `w` bytes of `s` when they end on a character boundary, as `s.get(..w)` finds
/// them; `None` when `s` is shorter or byte `w` falls inside a character.
pub fn byte_prefix(s: &str, w: usize) -> (r: Option<&str>)
    ensures
        match chars_in_width(s@, w as int) {
            Some(k) => r matches Some(p) && p@ == s@.take(k),
            None => r is None,
        },
{
    let n = s.unicode_len();
    let mut i: usize = 0;
    let mut used: usize = 0;
    proof {
        assert(s@.skip(0) =~= s@);
    }
    while i < n && used < w
        invariant
            i <= n,
            n == s@.len(),
            used <= w,
            chars_in_width(s@, w as int) == match chars_in_width(s@.skip(i as int), w - used) {
                Some(k) => Some(k + i),
                None => None::<int>,
            },
        decreases n - i,
    {
        let c = s.get_char(i);
        let width: usize = if (c as u32) < 0x80 {
            1
        } else if (c as u32) < 0x800 {
            2
        } else if (c as u32) < 0x10000 {
            3
        } else {
            4
        };
        proof {
            assert(s@.skip(i as int).drop_first() =~= s@.skip(i + 1));
            assert(s@.skip(i as int)[0] == c);
        }
        if width > w - used {
            proof {
                assert(chars_in_width(s@.skip(i + 1), w - used - width) is None);
            }
            return None;
        }
        used = used + width;
        i = i + 1;
    }
    if used == w {
        Some(s.substring_char(0, i))
    } else {
        proof {
            assert(s@.skip(i as int).len() == 0);
        }
        None
    }
}

fn lower_char(c: char) -> (r: char)
    ensures
        r == ascii_lower(c),
{
    if 'A' <= c && c <= 'Z' {
        let v: u32 = (c as u32) + 32;
        let b: u8 = v as u8;
        b as char
    } else {
        c
    }
}

/// `a.eq_ignore_ascii_case(b)`.
pub fn eq_ignore_ascii_case(a: &str, b: &str) -> (r: bool)
    ensures
        r == eq_ignoring_ascii_case(a@, b@),
{
    let n = a.unicode_len();
    if n != b.unicode_len() {
        return false;
    }
    let mut i: usize = 0;
    while i < n
        invariant
            n == a@.len() == b@.len(),
            i <= n,
            forall|j: int| 0 <= j < i ==> #[trigger] ascii_lower(a@[j]) == ascii_lower(b@[j]),
        decreases n - i,
    {
        if lower_char(a.get_char(i)) != lower_char(b.get_char(i)) {
            return false;
        }
        i = i + 1;
    }
    true
}

/// The texts held by a list of strings, in order.
pub open spec fn texts(v: Seq<String>) -> Seq<Seq<char>> {
    v.map_values(|s: String| s@)
}

/// Whether two strings hold the same characters — `a == b` on `&str`.
pub fn str_eq(a: &str, b: &str) -> (r: bool)
    ensures
        r == (a@ == b@),
{
    let x = String::from_str(a);
    let y = String::from_str(b);
    x == y
}

/// `format!("{a}{b}")` for two string pieces.
pub fn join2(a: &str, b: &str) -> (r: String)
    ensures
        r@ == a@ + b@,
{
    let mut r = String::from_str(a);
    r.append(b);
    r
}

/// What `format!("{:?}", s)` renders for a string `s`: the text in double quotes, with
/// quotes, backslashes and unprintable characters escaped.
pub uninterp spec fn debug_quoted(s: Seq<char>) -> Seq<char>;

/// Whether every character of `s` is printable ASCII other than `"` and `\`, which `Debug`
/// writes as they are.
pub open spec fn debug_plain(s: Seq<char>) -> bool {
    forall|i: int| 0 <= i < s.len() ==> ' ' <= #[trigger] s[i] && s[i] <= '~' && s[i] != '"'
        && s[i] != '\\'
}

/// The `Debug` rendering of a string — `format!("{s:?}")`. Text made only of printable ASCII
/// other than quotes and backslashes comes back quoted and otherwise unchanged; what the
/// escaping does to other characters is left to the name.
#[verifier::external_body]
pub(crate) fn debug_text(s: &str) -> (r: String)
    ensures
        r@ == debug_quoted(s@),
        debug_plain(s@) ==> r@ == "\""@ + s@ + "\""@,
{
    format!("{s:?}")
}

/// Append one character — `String::push`.
#[verifier::external_body]
pub(crate) fn push_char(s: &mut String, c: char)
    ensures
        final(s)@ == old(s)@.push(c),
{
    s.push(c);
}

/// Whether `c` is whitespace, by Unicode's `White_Space` list: what `char::is_whitespace`
/// answers.
pub fn char_is_whitespace(c: char) -> (r: bool)
    ensures
        r == is_whitespace(c),
{
    ('\u{9}' <= c && c <= '\u{d}') || c == ' ' || c == '\u{85}' || c == '\u{a0}' || c == '\u{1680}'
        || ('\u{2000}' <= c && c <= '\u{200a}') || c == '\u{2028}' || c == '\u{2029}' || c
        == '\u{202f}' || c == '\u{205f}' || c == '\u{3000}'
}

fn digit_to_char(d: u64) -> (c: char)
    requires
        d < 10,
    ensures
        c == digit_char(d as int),
{
    let b: u8 = 48u8 + (d as u8);
    b as char
}

pub(crate) fn append_nat_decimal(out: &mut String, n: u64)
    ensures
        final(out)@ == old(out)@ + nat_decimal(n as nat),
    decreases n,
{
    if n < 10 {
        push_char(out, digit_to_char(n));
    } else {
        append_nat_decimal(out, n / 10);
        push_char(out, digit_to_char(n % 10));
        assert(final(out)@ =~= old(out)@ + nat_decimal(n as nat));
    }
}

/// Append the decimal rendering of `n` to `out` — what `write!(out, "{n}")` does.
pub fn append_decimal(out: &mut String, n: i64)
    ensures
        final(out)@ == old(out)@ + int_decimal(n as int),
{
    if n < 0 {
        push_char(out, '-');
        let magnitude: u64 = if n == i64::MIN {
            9_223_372_036_854_775_808u64
        } else {
            (-n) as u64
        };
        append_nat_decimal(out, magnitude);
        assert(final(out)@ =~= old(out)@ + int_decimal(n as int));
    } else {
        append_nat_decimal(out, n as u64);
    }
}

/// The decimal rendering of `n`, as a new string — `n.to_string()`.
pub fn decimal(n: i64) -> (s: String)
    ensures
        s@ == int_decimal(n as int),
{
    let mut s = String::new();
    append_decimal(&mut s, n);
    assert(s@ =~= int_decimal(n as int));
    s
}

/// `s` with leading and trailing whitespace removed — `str::trim`, as a character sequence.
pub fn trim(s: &str) -> (r: String)
    ensures
        r@ == trimmed(s@),
{
    proof {
        lemma_first_non_ws_bounds(s@);
        lemma_end_non_ws_bounds(s@);
    }
    let n = s.unicode_len();
    let mut start: usize = 0;
    while start < n && char_is_whitespace(s.get_char(start))
        invariant
            n == s@.len(),
            0 <= start <= n,
            start <= first_non_ws(s@),
            0 <= first_non_ws(s@) <= s@.len(),
            forall|i: int| 0 <= i < first_non_ws(s@) ==> #[trigger] is_whitespace(s@[i]),
            first_non_ws(s@) < s@.len() ==> !is_whitespace(s@[first_non_ws(s@)]),
        decreases n - start,
    {
        start = start + 1;
    }
    assert(start == first_non_ws(s@));
    let mut end: usize = n;
    while end > start && char_is_whitespace(s.get_char(end - 1))
        invariant
            n == s@.len(),
            start == first_non_ws(s@),
            start <= end <= n,
            end >= end_non_ws(s@) || end_non_ws(s@) <= start,
            0 <= end_non_ws(s@) <= s@.len(),
            forall|i: int| end_non_ws(s@) <= i < s@.len() ==> #[trigger] is_whitespace(s@[i]),
            end_non_ws(s@) > 0 ==> !is_whitespace(s@[end_non_ws(s@) - 1]),
            forall|i: int| 0 <= i < first_non_ws(s@) ==> #[trigger] is_whitespace(s@[i]),
            first_non_ws(s@) < s@.len() ==> !is_whitespace(s@[first_non_ws(s@)]),
        decreases end,
    {
        end = end - 1;
    }
    let piece = s.substring_char(start, end);
    let r = String::from_str(piece);
    proof {
        if end_non_ws(s@) <= first_non_ws(s@) {
            if start < end {
                // every character from `start` on is whitespace, yet the first non-whitespace
                // character sits at `start`
                assert(!is_whitespace(s@[start as int]));
                assert(false);
            }
            assert(r@ =~= trimmed(s@));
        } else {
            assert(end == end_non_ws(s@));
        }
    }
    r
}

} // verus!
