//! Text: what the warden needs of `std`'s strings, and what trimming means.

use vstd::prelude::*;
use vstd::utf8::encode_utf8;

verus! {

/// A character with Unicode's `White_Space` property.
pub open spec fn is_white_space(c: char) -> bool {
    ||| '\u{9}' <= c <= '\u{d}'
    ||| c == '\u{20}'
    ||| c == '\u{85}'
    ||| c == '\u{a0}'
    ||| c == '\u{1680}'
    ||| '\u{2000}' <= c <= '\u{200a}'
    ||| c == '\u{2028}'
    ||| c == '\u{2029}'
    ||| c == '\u{202f}'
    ||| c == '\u{205f}'
    ||| c == '\u{3000}'
}

/// Nothing but white space (the empty text included).
pub open spec fn is_blank(s: Seq<char>) -> bool {
    forall|i: int| 0 <= i < s.len() ==> is_white_space(#[trigger] s[i])
}

/// `s` without its leading white space.
pub open spec fn trim_start(s: Seq<char>) -> Seq<char>
    decreases s.len(),
{
    if s.len() > 0 && is_white_space(s[0]) {
        trim_start(s.drop_first())
    } else {
        s
    }
}

/// `s` without its trailing white space.
pub open spec fn trim_end(s: Seq<char>) -> Seq<char>
    decreases s.len(),
{
    if s.len() > 0 && is_white_space(s.last()) {
        trim_end(s.drop_last())
    } else {
        s
    }
}

/// `s` without its leading and trailing white space.
pub open spec fn trimmed(s: Seq<char>) -> Seq<char> {
    trim_end(trim_start(s))
}

/// The characters of a text, if there is one.
pub open spec fn text_of(s: Option<String>) -> Option<Seq<char>> {
    match s {
        Some(s) => Some(s@),
        None => None,
    }
}

/// Decimal digits of `n`, without leading zeros.
pub open spec fn decimal_text(n: nat) -> Seq<char>
    decreases n,
{
    if n < 10 {
        seq![digit(n)]
    } else {
        decimal_text(n / 10).push(digit(n % 10))
    }
}

/// The decimal digit for a number below ten.
pub open spec fn digit(n: nat) -> char {
    (('0' as u32) + n) as char
}

/// A decimal digit.
pub open spec fn is_digit(c: char) -> bool {
    '0' <= c <= '9'
}

/// The number that a run of decimal digits stands for.
pub open spec fn digits_value(s: Seq<char>) -> nat
    decreases s.len(),
{
    if s.len() == 0 {
        0
    } else {
        10 * digits_value(s.drop_last()) + (s.last() as u32 - '0' as u32) as nat
    }
}

/// Decimal digits, at least one, and nothing else.
pub open spec fn is_digits(s: Seq<char>) -> bool {
    &&& s.len() > 0
    &&& forall|i: int| 0 <= i < s.len() ==> is_digit(#[trigger] s[i])
}

/// The unsigned number that a text stands for: decimal digits and nothing
/// else, after an optional `+`.
pub open spec fn unsigned_value(s: Seq<char>) -> Option<nat> {
    let digits = if s.len() > 0 && s[0] == '+' { s.drop_first() } else { s };
    if is_digits(digits) {
        Some(digits_value(digits))
    } else {
        None
    }
}

/// Leading white space more or less makes no difference to `trim_start`.
proof fn lemma_trim_start_skips_blank(a: Seq<char>, s: Seq<char>)
    requires
        is_blank(a),
    ensures
        trim_start(a + s) == trim_start(s),
    decreases a.len(),
{
    if a.len() == 0 {
        assert(a + s =~= s);
    } else {
        assert((a + s).drop_first() =~= a.drop_first() + s);
        assert((a + s)[0] == a[0]);
        lemma_trim_start_skips_blank(a.drop_first(), s);
    }
}

/// Trailing white space more or less makes no difference to `trim_end`.
proof fn lemma_trim_end_skips_blank(s: Seq<char>, b: Seq<char>)
    requires
        is_blank(b),
    ensures
        trim_end(s + b) == trim_end(s),
    decreases b.len(),
{
    if b.len() == 0 {
        assert(s + b =~= s);
    } else {
        assert((s + b).drop_last() =~= s + b.drop_last());
        assert((s + b).last() == b.last());
        lemma_trim_end_skips_blank(s, b.drop_last());
    }
}

/// `trim_start` stops at the first character that is no white space.
proof fn lemma_trim_start_keeps_rest(s: Seq<char>, b: Seq<char>)
    requires
        !is_blank(s),
    ensures
        trim_start(s + b) == trim_start(s) + b,
        !is_blank(trim_start(s)),
    decreases s.len(),
{
    assert((s + b)[0] == s[0]);
    if is_white_space(s[0]) {
        let rest = s.drop_first();
        assert(!is_blank(rest)) by {
            let i = choose|i: int| 0 <= i < s.len() && !is_white_space(#[trigger] s[i]);
            assert(rest[i - 1] == s[i]);
        }
        assert((s + b).drop_first() =~= rest + b);
        lemma_trim_start_keeps_rest(rest, b);
    }
}

/// `trim_end` leaves a leading part.
proof fn lemma_trim_end_is_prefix(s: Seq<char>)
    ensures
        trim_end(s).is_prefix_of(s),
    decreases s.len(),
{
    if s.len() > 0 && is_white_space(s.last()) {
        lemma_trim_end_is_prefix(s.drop_last());
    }
}

/// `trim_end` of a longer text leaves at least as much.
proof fn lemma_trim_end_grows(s: Seq<char>, t: Seq<char>)
    ensures
        trim_end(s).is_prefix_of(trim_end(s + t)),
    decreases t.len(),
{
    lemma_trim_end_is_prefix(s);
    if t.len() == 0 {
        assert(s + t =~= s);
    } else if is_white_space(t.last()) {
        assert((s + t).drop_last() =~= s + t.drop_last());
        lemma_trim_end_grows(s, t.drop_last());
    }
}

/// Nothing is left of a text just where it is blank.
pub proof fn lemma_trimmed_empty(s: Seq<char>)
    ensures
        trimmed(s).len() == 0 <==> is_blank(s),
{
    let none = Seq::<char>::empty();
    if is_blank(s) {
        lemma_trim_start_skips_blank(s, none);
        assert(s + none =~= s);
    } else {
        lemma_trim_start_keeps_rest(s, none);
        let t = trim_start(s);
        let i = choose|i: int| 0 <= i < t.len() && !is_white_space(#[trigger] t[i]);
        let head = t.take(i + 1);
        assert(t =~= head + t.skip(i + 1));
        lemma_trim_end_grows(head, t.skip(i + 1));
        assert(head.last() == t[i]);
    }
}

/// White space around a text makes no difference to `trimmed`.
pub proof fn lemma_trimmed_padding(before: Seq<char>, s: Seq<char>, after: Seq<char>)
    requires
        is_blank(before),
        is_blank(after),
    ensures
        trimmed(before + s + after) == trimmed(s),
{
    assert(before + s + after =~= before + (s + after));
    lemma_trim_start_skips_blank(before, s + after);
    if is_blank(s) {
        lemma_trimmed_empty(s + after);
        lemma_trimmed_empty(s);
        assert(trimmed(s + after) =~= trimmed(s));
    } else {
        lemma_trim_start_keeps_rest(s, after);
        lemma_trim_end_skips_blank(trim_start(s), after);
    }
}

/// What is left of a text is its core: white space was taken from both ends,
/// and nothing but white space, and none is left there.
pub proof fn law_trimming_leaves_the_core(s: Seq<char>)
    ensures
        exists|before: Seq<char>, after: Seq<char>|
            {
                &&& is_blank(before)
                &&& is_blank(after)
                &&& s == #[trigger] (before + trimmed(s) + after)
            },
        trimmed(s).len() > 0 ==> !is_white_space(trimmed(s)[0]) && !is_white_space(
            trimmed(s).last(),
        ),
{
    let t = trim_start(s);
    let before = lemma_trim_start_splits(s);
    let after = lemma_trim_end_splits(t);
    assert(s =~= before + trimmed(s) + after);
    if trimmed(s).len() > 0 {
        assert(trimmed(s)[0] == t[0]);
    }
}

/// Of a core between white space, the core is left.
pub proof fn law_trimming_gives_back_the_core(before: Seq<char>, core: Seq<char>, after: Seq<char>)
    requires
        is_blank(before),
        is_blank(after),
        core.len() > 0 ==> !is_white_space(core[0]) && !is_white_space(core.last()),
    ensures
        trimmed(before + core + after) == core,
{
    lemma_trimmed_padding(before, core, after);
}

/// `trim_start` takes away white space alone, and leaves none in front.
proof fn lemma_trim_start_splits(s: Seq<char>) -> (before: Seq<char>)
    ensures
        is_blank(before),
        s == before + trim_start(s),
        trim_start(s).len() > 0 ==> !is_white_space(trim_start(s)[0]),
    decreases s.len(),
{
    if s.len() > 0 && is_white_space(s[0]) {
        let rest = lemma_trim_start_splits(s.drop_first());
        let before = seq![s[0]] + rest;
        assert(s =~= seq![s[0]] + s.drop_first());
        assert(s =~= before + trim_start(s));
        before
    } else {
        assert(s =~= Seq::<char>::empty() + s);
        Seq::empty()
    }
}

/// `trim_end` takes away white space alone, and leaves none behind.
proof fn lemma_trim_end_splits(s: Seq<char>) -> (after: Seq<char>)
    ensures
        is_blank(after),
        s == trim_end(s) + after,
        trim_end(s).len() > 0 ==> !is_white_space(trim_end(s).last()),
    decreases s.len(),
{
    if s.len() > 0 && is_white_space(s.last()) {
        let rest = lemma_trim_end_splits(s.drop_last());
        let after = rest.push(s.last());
        assert(s =~= s.drop_last().push(s.last()));
        assert(s =~= trim_end(s) + after);
        after
    } else {
        assert(s =~= s + Seq::<char>::empty());
        Seq::empty()
    }
}

/// White space is tab, line feed, vertical tab, form feed, carriage return,
/// space, next line, no-break space and the other separators that Unicode
/// lists; no other character is.
pub proof fn law_white_space_characters(c: char)
    ensures
        is_white_space(c) <==> {
            let n = c as u32;
            ||| n == 9 || n == 10 || n == 11 || n == 12 || n == 13 || n == 32
            ||| n == 0x85 || n == 0xa0 || n == 0x1680
            ||| n == 0x2000 || n == 0x2001 || n == 0x2002 || n == 0x2003 || n == 0x2004
            ||| n == 0x2005 || n == 0x2006 || n == 0x2007 || n == 0x2008 || n == 0x2009
            ||| n == 0x200a || n == 0x2028 || n == 0x2029 || n == 0x202f || n == 0x205f
            ||| n == 0x3000
        },
{
}

/// A number in decimal is all digits, the first of them no zero unless the
/// number is, and reads back as the number.
pub proof fn law_decimal_reads_back(n: nat)
    ensures
        decimal_text(n).len() > 0,
        forall|i: int| 0 <= i < decimal_text(n).len() ==> '0' <= #[trigger] decimal_text(n)[i] <= '9',
        n > 0 ==> decimal_text(n)[0] != '0',
        digits_value(decimal_text(n)) == n,
        unsigned_value(decimal_text(n)) == Some(n),
        n <= u64::MAX ==> parsed_u64(decimal_text(n)) == Ok::<u64, Seq<char>>(n as u64),
        n > u64::MAX ==> parsed_u64(decimal_text(n)) is Err,
    decreases n,
{
    assert(digit(n % 10) as u32 == '0' as u32 + n % 10);
    if n < 10 {
        reveal_with_fuel(digits_value, 2);
        assert(decimal_text(n).drop_last() =~= Seq::empty());
        assert(decimal_text(n).last() == digit(n));
    } else {
        let init = decimal_text(n / 10);
        law_decimal_reads_back(n / 10);
        assert(decimal_text(n).drop_last() =~= init);
        assert(decimal_text(n).last() == digit(n % 10));
        assert(decimal_text(n)[0] == init[0]);
    }
}

/// A text with a character that is no digit, but for a `+` in front, or with
/// no digit at all, is no number.
pub proof fn law_no_number_without_digits(s: Seq<char>)
    requires
        s.len() == 0 || s == seq!['+'] || exists|i: int|
            0 <= i < s.len() && !('0' <= #[trigger] s[i] <= '9') && !(i == 0 && s[i] == '+'),
    ensures
        unsigned_value(s) is None,
        parsed_u64(s) == Err::<u64, Seq<char>>(u64_error_text(s)),
{
    if s == seq!['+'] {
        assert(s.len() == 1 && s[0] == '+');
    } else if s.len() > 0 {
        let i = choose|i: int|
            0 <= i < s.len() && !('0' <= #[trigger] s[i] <= '9') && !(i == 0 && s[i] == '+');
        if s[0] == '+' {
            assert(s.drop_first()[i - 1] == s[i]);
            assert(!is_digit(s.drop_first()[i - 1]));
        } else {
            assert(!is_digit(s[i]));
        }
    }
}

/// A leading zero, or a `+` in front of digits, makes no difference to the
/// number.
pub proof fn law_plus_and_zeros_make_no_difference(s: Seq<char>)
    requires
        s.len() > 0,
        forall|i: int| 0 <= i < s.len() ==> '0' <= #[trigger] s[i] <= '9',
    ensures
        unsigned_value(s) is Some,
        unsigned_value(seq!['+'] + s) == unsigned_value(s),
        unsigned_value(seq!['0'] + s) == unsigned_value(s),
{
    assert((seq!['+'] + s).drop_first() =~= s);
    lemma_leading_zero(s);
    assert forall|i: int| 0 <= i < (seq!['0'] + s).len() implies is_digit(
        #[trigger] (seq!['0'] + s)[i],
    ) by {
        if i > 0 {
            assert((seq!['0'] + s)[i] == s[i - 1]);
        }
    }
}

proof fn lemma_leading_zero(s: Seq<char>)
    ensures
        digits_value(seq!['0'] + s) == digits_value(s),
    decreases s.len(),
{
    let t = seq!['0'] + s;
    if s.len() == 0 {
        assert(t.drop_last() =~= s);
    } else {
        assert(t.drop_last() =~= seq!['0'] + s.drop_last());
        lemma_leading_zero(s.drop_last());
    }
}

/// What is left of a text is a leading part of what is left of a longer one.
pub proof fn lemma_trimmed_grows(s: Seq<char>, t: Seq<char>)
    ensures
        trimmed(s).is_prefix_of(trimmed(s + t)),
{
    if is_blank(s) {
        lemma_trimmed_empty(s);
    } else {
        lemma_trim_start_keeps_rest(s, t);
        lemma_trim_end_grows(trim_start(s), t);
    }
}

/// What `std` prints for a text with `{:?}`: the text in double quotes, with
/// quotes, backslashes and unprintable characters escaped.
pub uninterp spec fn quoted(s: Seq<char>) -> Seq<char>;

/// The `u64` that a text stands for, or what `std` says against it.
pub open spec fn parsed_u64(s: Seq<char>) -> Result<u64, Seq<char>> {
    match unsigned_value(s) {
        Some(n) => if n <= u64::MAX {
            Ok(n as u64)
        } else {
            Err(u64_error_text(s))
        },
        None => Err(u64_error_text(s)),
    }
}

/// What `std` says of a text that is no `u64`.
pub uninterp spec fn u64_error_text(s: Seq<char>) -> Seq<char>;

/// `str::trim`: the text without leading and trailing characters that have
/// the `White_Space` property.
#[verifier::external_body]
pub(crate) fn trim(s: &str) -> (r: &str)
    ensures
        r@ == trimmed(s@),
{
    s.trim()
}

/// `str::starts_with` with a text as its pattern.
#[verifier::external_body]
pub(crate) fn starts_with(s: &str, prefix: &str) -> (r: bool)
    ensures
        r == prefix@.is_prefix_of(s@),
{
    s.starts_with(prefix)
}

/// Whether two texts are the same, byte by byte.
pub(crate) fn same_text(a: &str, b: &str) -> (r: bool)
    ensures
        r == (a@ == b@),
{
    let x: &[u8] = a.as_bytes();
    let y: &[u8] = b.as_bytes();
    if x.len() != y.len() {
        return false;
    }
    for i in 0..x.len()
        invariant
            x.len() == y.len(),
            x@ == encode_utf8(a@),
            y@ == encode_utf8(b@),
            forall|j: int| 0 <= j < i ==> x@[j] == y@[j],
    {
        if x[i] != y[i] {
            return false;
        }
    }
    proof {
        assert(x@ =~= y@);
        vstd::utf8::encode_utf8_decode_utf8(a@);
        vstd::utf8::encode_utf8_decode_utf8(b@);
    }
    true
}

/// `std`'s `Debug` form of a `str`. What it escapes, and how, goes by
/// Unicode's tables; the contract names the result.
#[verifier::external_body]
pub(crate) fn quote(s: &str) -> (r: String)
    ensures
        r@ == quoted(s@),
{
    format!("{:?}", s)
}

/// `u32::to_string`: the number in decimal.
#[verifier::external_body]
pub(crate) fn decimal(n: u32) -> (r: String)
    ensures
        r@ == decimal_text(n as nat),
{
    n.to_string()
}

/// `str::parse::<u64>`: an optional `+` and decimal digits, where the number
/// fits. The wording of the error is `std`'s and is named.
#[verifier::external_body]
pub(crate) fn parse_u64(s: &str) -> (r: Result<u64, String>)
    ensures
        match r {
            Ok(n) => parsed_u64(s@) == Ok::<u64, Seq<char>>(n),
            Err(text) => parsed_u64(s@) is Err && text@ == u64_error_text(s@),
        },
{
    s.parse::<u64>().map_err(|e| e.to_string())
}

/// `a` followed by `b`.
pub(crate) fn join(a: &str, b: &str) -> (r: String)
    ensures
        r@ == a@ + b@,
{
    a.to_owned().concat(b)
}

/// `a`, `b` and `c` in a row.
pub(crate) fn join3(a: &str, b: &str, c: &str) -> (r: String)
    ensures
        r@ == a@ + b@ + c@,
{
    a.to_owned().concat(b).concat(c)
}

} // verus!
