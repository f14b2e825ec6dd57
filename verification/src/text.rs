//! Text helpers: decimal numerals in both directions, and the media-type
//! check that decides whether a downloaded photo counts as a JPEG.

use vstd::prelude::*;

verus! {

use vstd::string::StringExecFns;
use vstd::string::StrSliceExecFns;
use vstd::arithmetic::div_mod::lemma_fundamental_div_mod;

// ---------------------------------------------------------------------------
// Rendering a number as decimal digits.
// ---------------------------------------------------------------------------
/// The character for one decimal digit.
pub open spec fn digit_char(d: nat) -> char
    recommends
        d < 10,
{
    if d == 0 {
        '0'
    } else if d == 1 {
        '1'
    } else if d == 2 {
        '2'
    } else if d == 3 {
        '3'
    } else if d == 4 {
        '4'
    } else if d == 5 {
        '5'
    } else if d == 6 {
        '6'
    } else if d == 7 {
        '7'
    } else if d == 8 {
        '8'
    } else {
        '9'
    }
}

/// The decimal numeral of `n`, most significant digit first, no leading zeros.
pub open spec fn decimal_digits(n: nat) -> Seq<char>
    decreases n,
{
    if n < 10 {
        seq![digit_char(n)]
    } else {
        decimal_digits(n / 10) + seq![digit_char(n % 10)]
    }
}

fn digit_str(d: u64) -> (r: &'static str)
    requires
        d < 10,
    ensures
        r@ == seq![digit_char(d as nat)],
{
    let r: &'static str = if d == 0 {
        "0"
    } else if d == 1 {
        "1"
    } else if d == 2 {
        "2"
    } else if d == 3 {
        "3"
    } else if d == 4 {
        "4"
    } else if d == 5 {
        "5"
    } else if d == 6 {
        "6"
    } else if d == 7 {
        "7"
    } else if d == 8 {
        "8"
    } else {
        "9"
    };
    proof {
        reveal_strlit("0");
        reveal_strlit("1");
        reveal_strlit("2");
        reveal_strlit("3");
        reveal_strlit("4");
        reveal_strlit("5");
        reveal_strlit("6");
        reveal_strlit("7");
        reveal_strlit("8");
        reveal_strlit("9");
        assert(r@ =~= seq![digit_char(d as nat)]);
    }
    r
}

/// Append the decimal numeral of `n` to `out`.
pub fn push_decimal(out: &mut String, n: u64)
    ensures
        final(out)@ == old(out)@ + decimal_digits(n as nat),
    decreases n,
{
    if n < 10 {
        out.append(digit_str(n));
        proof {
            assert(final(out)@ =~= old(out)@ + decimal_digits(n as nat));
        }
    } else {
        push_decimal(out, n / 10);
        out.append(digit_str(n % 10));
        proof {
            assert((old(out)@ + decimal_digits((n / 10) as nat)) + seq![
                digit_char((n % 10) as nat),
            ] =~= old(out)@ + decimal_digits(n as nat));
        }
    }
}

/// The decimal numeral of `n` as a fresh string.
pub fn u64_to_string(n: u64) -> (r: String)
    ensures
        r@ == decimal_digits(n as nat),
{
    let mut s = String::new();
    push_decimal(&mut s, n);
    proof {
        assert(Seq::<char>::empty() + decimal_digits(n as nat) =~= decimal_digits(n as nat));
    }
    s
}

// ---------------------------------------------------------------------------
// Reading a number back from decimal digits.
// ---------------------------------------------------------------------------
/// Whether `c` is a decimal digit.
pub open spec fn is_digit_char(c: char) -> bool {
    48 <= c as int && c as int <= 57
}

/// The value of one decimal digit character.
pub open spec fn digit_val(c: char) -> nat
    recommends
        is_digit_char(c),
{
    (c as int - 48) as nat
}

/// Whether every character of `s` is a decimal digit.
pub open spec fn all_digits(s: Seq<char>) -> bool {
    forall|i: int| 0 <= i < s.len() ==> is_digit_char(#[trigger] s[i])
}

/// The numeric value of a string of decimal digits.
pub open spec fn decimal_val(s: Seq<char>) -> nat
    decreases s.len(),
{
    if s.len() == 0 {
        0
    } else {
        decimal_val(s.drop_last()) * 10 + digit_val(s.last())
    }
}

/// `s` with one leading plus sign removed, as the number parser sees it.
pub open spec fn strip_plus(s: Seq<char>) -> Seq<char> {
    if s.len() > 0 && s[0] == '+' {
        s.drop_first()
    } else {
        s
    }
}

/// Whether `s` is a numeral that fits in a `u32`: an optional leading plus
/// sign, then one or more decimal digits, with a value of at most `u32::MAX`.
pub open spec fn valid_u32_text(s: Seq<char>) -> bool {
    let d = strip_plus(s);
    d.len() > 0 && all_digits(d) && decimal_val(d) <= u32::MAX
}

/// The value of a numeral accepted by `valid_u32_text`.
pub open spec fn u32_text_val(s: Seq<char>) -> nat {
    decimal_val(strip_plus(s))
}

/// Reading a rendered numeral back gives the number: rendering and parsing
/// are inverse.
pub proof fn lemma_decimal_round_trip(n: nat)
    ensures
        decimal_val(decimal_digits(n)) == n,
    decreases n,
{
    if n < 10 {
        assert(seq![digit_char(n)].drop_last() =~= Seq::<char>::empty());
        assert(seq![digit_char(n)].last() == digit_char(n));
        assert(decimal_val(Seq::<char>::empty()) == 0);
        assert(digit_val(digit_char(n)) == n);
    } else {
        lemma_decimal_round_trip(n / 10);
        assert((decimal_digits(n / 10) + seq![digit_char(n % 10)]).drop_last() =~= decimal_digits(
            n / 10,
        ));
        assert((decimal_digits(n / 10) + seq![digit_char(n % 10)]).last() == digit_char(n % 10));
        assert(digit_val(digit_char(n % 10)) == n % 10);
        lemma_fundamental_div_mod(n as int, 10);
    }
}

/// Different numbers render as different numerals.
pub proof fn lemma_decimal_digits_injective(a: nat, b: nat)
    requires
        decimal_digits(a) == decimal_digits(b),
    ensures
        a == b,
{
    lemma_decimal_round_trip(a);
    lemma_decimal_round_trip(b);
}

/// A numeral is at least as large as any of its prefixes.
proof fn lemma_decimal_val_prefix(s: Seq<char>, k: int)
    requires
        0 <= k <= s.len(),
    ensures
        decimal_val(s.take(k)) <= decimal_val(s),
    decreases s.len(),
{
    if k == s.len() {
        assert(s.take(k) =~= s);
    } else {
        assert(s.take(k) =~= s.drop_last().take(k));
        lemma_decimal_val_prefix(s.drop_last(), k);
    }
}

/// Read a `u32` from its decimal numeral, accepting exactly the strings that
/// `valid_u32_text` describes.
pub fn parse_u32(s: &str) -> (r: Option<u32>)
    ensures
        r is Some <==> valid_u32_text(s@),
        r matches Some(v) ==> v == u32_text_val(s@),
{
    let len: usize = s.unicode_len();
    let start: usize = if len > 0 && s.get_char(0) == '+' {
        1
    } else {
        0
    };
    let ghost d = strip_plus(s@);
    proof {
        assert(d =~= s@.subrange(start as int, len as int));
    }
    if len == start {
        return None;
    }
    let mut acc: u32 = 0;
    let mut i: usize = start;
    while i < len
        invariant
            start <= i <= len,
            len == s@.len(),
            start <= 1,
            d == s@.subrange(start as int, len as int),
            d == strip_plus(s@),
            d.len() == len - start,
            all_digits(s@.subrange(start as int, i as int)),
            acc == decimal_val(s@.subrange(start as int, i as int)),
        decreases len - i,
    {
        let c = s.get_char(i);
        let v: u32 = c as u32;
        if v < 48 || v > 57 {
            proof {
                assert(d[i - start] == s@[i as int]);
                assert(!all_digits(d));
            }
            return None;
        }
        let dgt: u32 = v - 48;
        let ghost pre = s@.subrange(start as int, i as int);
        let ghost ext = s@.subrange(start as int, i + 1);
        proof {
            assert(ext.drop_last() =~= pre);
            assert(ext.last() == s@[i as int]);
            assert(decimal_val(ext) == acc * 10 + dgt);
        }
        let limit: u32 = (0xffff_ffffu32 - dgt) / 10;
        proof {
            lemma_fundamental_div_mod(0xffff_ffffu32 - dgt, 10);
        }
        if acc > limit {
            proof {
                assert(decimal_val(ext) > u32::MAX);
                assert(ext =~= d.take(i + 1 - start));
                lemma_decimal_val_prefix(d, i + 1 - start);
            }
            return None;
        }
        acc = acc * 10 + dgt;
        i = i + 1;
    }
    proof {
        assert(s@.subrange(start as int, i as int) =~= d);
    }
    Some(acc)
}

// ---------------------------------------------------------------------------
// The media-type check for downloaded photos.
// ---------------------------------------------------------------------------
/// ASCII upper-case letters folded to lower case; everything else unchanged.
pub open spec fn to_lower_byte(b: u8) -> u8 {
    if 65 <= b && b <= 90 {
        (b + 32) as u8
    } else {
        b
    }
}

/// `s` with its ASCII letters folded to lower case.
pub open spec fn ascii_lower(s: Seq<u8>) -> Seq<u8> {
    s.map_values(|b: u8| to_lower_byte(b))
}

/// Optional whitespace allowed around a header value: space or tab.
pub open spec fn is_ows_byte(b: u8) -> bool {
    b == 32 || b == 9
}

/// The position of the first semicolon, or the length if there is none.
pub open spec fn semi_index(s: Seq<u8>) -> nat
    decreases s.len(),
{
    if s.len() == 0 {
        0
    } else if s[0] == 59 {
        0
    } else {
        1 + semi_index(s.drop_first())
    }
}

/// `s` without leading optional whitespace.
pub open spec fn trim_start_spec(s: Seq<u8>) -> Seq<u8>
    decreases s.len(),
{
    if s.len() > 0 && is_ows_byte(s[0]) {
        trim_start_spec(s.drop_first())
    } else {
        s
    }
}

/// `s` without trailing optional whitespace.
pub open spec fn trim_end_spec(s: Seq<u8>) -> Seq<u8>
    decreases s.len(),
{
    if s.len() > 0 && is_ows_byte(s.last()) {
        trim_end_spec(s.drop_last())
    } else {
        s
    }
}

/// The type and subtype of a media-type header value: what stands before the
/// first semicolon, with surrounding optional whitespace removed.
pub open spec fn media_essence(ct: Seq<u8>) -> Seq<u8> {
    trim_end_spec(trim_start_spec(ct.take(semi_index(ct) as int)))
}

/// The bytes of "image/jpeg".
pub open spec fn jpeg_bytes() -> Seq<u8> {
    seq![105u8, 109u8, 97u8, 103u8, 101u8, 47u8, 106u8, 112u8, 101u8, 103u8]
}

/// Whether a content-type header value declares a JPEG image: its media
/// essence is "image/jpeg", compared without regard to ASCII case.
pub open spec fn is_jpeg_content_type_spec(ct: Seq<u8>) -> bool {
    ascii_lower(media_essence(ct)) == jpeg_bytes()
}

proof fn lemma_semi_index_scan(s: Seq<u8>, i: nat)
    requires
        i <= s.len(),
        forall|j: int| 0 <= j < i ==> s[j] != 59,
        i == s.len() || s[i as int] == 59,
    ensures
        semi_index(s) == i,
    decreases s.len(),
{
    if s.len() == 0 {
    } else if s[0] == 59 {
    } else {
        lemma_semi_index_scan(s.drop_first(), (i - 1) as nat);
    }
}

proof fn lemma_trim_start_scan(s: Seq<u8>, i: nat)
    requires
        i <= s.len(),
        forall|j: int| 0 <= j < i ==> is_ows_byte(#[trigger] s[j]),
        i == s.len() || !is_ows_byte(s[i as int]),
    ensures
        trim_start_spec(s) == s.skip(i as int),
    decreases s.len(),
{
    if s.len() > 0 && is_ows_byte(s[0]) {
        lemma_trim_start_scan(s.drop_first(), (i - 1) as nat);
        assert(s.drop_first().skip(i - 1) =~= s.skip(i as int));
    } else {
        assert(s.skip(0) =~= s);
    }
}

proof fn lemma_trim_end_scan(s: Seq<u8>, i: nat)
    requires
        i <= s.len(),
        forall|j: int| i <= j < s.len() ==> is_ows_byte(#[trigger] s[j]),
        i == 0 || !is_ows_byte(s[i - 1]),
    ensures
        trim_end_spec(s) == s.take(i as int),
    decreases s.len(),
{
    if s.len() > 0 && is_ows_byte(s.last()) {
        lemma_trim_end_scan(s.drop_last(), i);
        assert(s.drop_last().take(i as int) =~= s.take(i as int));
    } else {
        assert(s.take(s.len() as int) =~= s);
    }
}

fn lower_byte(b: u8) -> (r: u8)
    ensures
        r == to_lower_byte(b),
{
    if 65 <= b && b <= 90 {
        b + 32
    } else {
        b
    }
}

/// Decide whether a content-type header value declares a JPEG image.
pub fn is_jpeg_content_type(ct: &[u8]) -> (r: bool)
    ensures
        r == is_jpeg_content_type_spec(ct@),
{
    let n: usize = ct.len();
    let mut e: usize = 0;
    while e < n && ct[e] != 59
        invariant
            0 <= e <= n,
            n == ct@.len(),
            forall|j: int| 0 <= j < e ==> ct@[j] != 59,
        decreases n - e,
    {
        e = e + 1;
    }
    let mut a: usize = 0;
    while a < e && (ct[a] == 32 || ct[a] == 9)
        invariant
            0 <= a <= e <= n,
            n == ct@.len(),
            forall|j: int| 0 <= j < a ==> is_ows_byte(#[trigger] ct@[j]),
        decreases e - a,
    {
        a = a + 1;
    }
    let mut b: usize = e;
    while b > a && (ct[b - 1] == 32 || ct[b - 1] == 9)
        invariant
            0 <= a <= b <= e <= n,
            n == ct@.len(),
            forall|j: int| b <= j < e ==> is_ows_byte(#[trigger] ct@[j]),
        decreases b,
    {
        b = b - 1;
    }
    proof {
        lemma_semi_index_scan(ct@, e as nat);
        let cut = ct@.take(e as int);
        lemma_trim_start_scan(cut, a as nat);
        lemma_trim_end_scan(cut.skip(a as int), (b - a) as nat);
        assert(cut.skip(a as int).take(b - a) =~= ct@.subrange(a as int, b as int));
        assert(media_essence(ct@) == ct@.subrange(a as int, b as int));
    }
    if b - a != 10 {
        proof {
            assert(ascii_lower(media_essence(ct@)).len() == b - a);
        }
        return false;
    }
    let ok: bool = lower_byte(ct[a]) == 105 && lower_byte(ct[a + 1]) == 109 && lower_byte(
        ct[a + 2],
    ) == 97 && lower_byte(ct[a + 3]) == 103 && lower_byte(ct[a + 4]) == 101 && lower_byte(
        ct[a + 5],
    ) == 47 && lower_byte(ct[a + 6]) == 106 && lower_byte(ct[a + 7]) == 112 && lower_byte(
        ct[a + 8],
    ) == 101 && lower_byte(ct[a + 9]) == 103;
    proof {
        let ghost ess = media_essence(ct@);
        assert(forall|k: int| 0 <= k < 10 ==> ascii_lower(ess)[k] == to_lower_byte(
            #[trigger] ess[k],
        ));
        if ok {
            assert(ascii_lower(ess) =~= jpeg_bytes());
        } else {
            if ascii_lower(ess) == jpeg_bytes() {
                assert(to_lower_byte(ess[0]) == 105);
                assert(to_lower_byte(ess[1]) == 109);
                assert(to_lower_byte(ess[2]) == 97);
                assert(to_lower_byte(ess[3]) == 103);
                assert(to_lower_byte(ess[4]) == 101);
                assert(to_lower_byte(ess[5]) == 47);
                assert(to_lower_byte(ess[6]) == 106);
                assert(to_lower_byte(ess[7]) == 112);
                assert(to_lower_byte(ess[8]) == 101);
                assert(to_lower_byte(ess[9]) == 103);
            }
        }
    }
    ok
}

} // verus!
