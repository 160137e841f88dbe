//! Byte-level codecs: decimal header values, percent-encoding for
//! form bodies and query strings, and query-string parsing.

use vstd::prelude::*;
use vstd::string::StrSliceExecFns;
use vstd::string::StringSliceAdditionalSpecFns;

verus! {

/// True for the bytes `'0'` to `'9'`.
pub open spec fn is_digit_byte(b: u8) -> bool {
    48 <= b <= 57
}

/// The value of a sequence of decimal digit bytes, most significant first.
pub open spec fn digits_value(s: Seq<u8>) -> nat
    decreases s.len(),
{
    if s.len() == 0 {
        0
    } else {
        digits_value(s.drop_last()) * 10 + (s.last() - 48) as nat
    }
}

/// Ten to the given power.
pub open spec fn pow10(n: nat) -> nat
    decreases n,
{
    if n == 0 {
        1
    } else {
        10 * pow10((n - 1) as nat)
    }
}

/// A digit string's value is below ten to its length.
pub proof fn lemma_digits_value_bound(s: Seq<u8>)
    requires
        forall|i: int| 0 <= i < s.len() ==> is_digit_byte(#[trigger] s[i]),
    ensures
        digits_value(s) < pow10(s.len()),
    decreases s.len(),
{
    if s.len() > 0 {
        lemma_digits_value_bound(s.drop_last());
        assert(forall|i: int|
            0 <= i < s.drop_last().len() ==> is_digit_byte(#[trigger] s.drop_last()[i]));
    }
}

/// The index of the first occurrence of `b` in `s` at or after `i`, or the
/// length of `s` when there is none.
pub open spec fn first_at(s: Seq<u8>, b: u8, i: int) -> int
    decreases s.len() - i,
{
    if i < 0 || i >= s.len() {
        s.len() as int
    } else if s[i] == b {
        i
    } else {
        first_at(s, b, i + 1)
    }
}

/// True when every byte of `s` is a decimal digit.
pub open spec fn all_digits(s: Seq<u8>) -> bool {
    forall|i: int| 0 <= i < s.len() ==> is_digit_byte(#[trigger] s[i])
}

/// The integer part of a rate-limit header value: the bytes before the
/// first dot, or the whole value when there is none.
pub open spec fn rate_int_part(s: Seq<u8>) -> Seq<u8> {
    s.subrange(0, first_at(s, 46, 0))
}

/// The fractional part of a rate-limit header value: the bytes after the
/// first dot, or empty when there is none.
pub open spec fn rate_frac_part(s: Seq<u8>) -> Seq<u8> {
    if first_at(s, 46, 0) < s.len() {
        s.subrange(first_at(s, 46, 0) + 1, s.len() as int)
    } else {
        Seq::<u8>::empty()
    }
}

/// True when a rate-limit header value reads as a number: an integer part
/// of one to nineteen digits, optionally followed by a dot and a (possibly
/// empty) fractional digit string.
pub open spec fn rate_number_wf(s: Seq<u8>) -> bool {
    &&& 1 <= rate_int_part(s).len() <= 19
    &&& all_digits(rate_int_part(s))
    &&& all_digits(rate_frac_part(s))
}

/// How a rate-limit header value reads as a number, rounded to the nearest
/// integer (a fraction of one half or more rounds up). A value that is not
/// well formed does not read as a number.
pub open spec fn spec_parse_rate_number(s: Seq<u8>) -> Option<u64> {
    if rate_number_wf(s) {
        let round_up: nat = if rate_frac_part(s).len() > 0 && rate_frac_part(s)[0] >= 53 {
            1
        } else {
            0
        };
        Some((digits_value(rate_int_part(s)) + round_up) as u64)
    } else {
        None
    }
}

/// Ten to a smaller power is at most ten to a larger power.
pub proof fn lemma_pow10_mono(a: nat, b: nat)
    requires
        a <= b,
    ensures
        pow10(a) <= pow10(b),
    decreases b,
{
    if a < b {
        lemma_pow10_mono(a, (b - 1) as nat);
    }
}

proof fn lemma_first_at_found(s: Seq<u8>, b: u8, k: int, i: int)
    requires
        0 <= k <= i <= s.len(),
        forall|j: int| k <= j < i ==> s[j] != b,
        i < s.len() ==> s[i] == b,
    ensures
        first_at(s, b, k) == if i < s.len() {
            i
        } else {
            s.len() as int
        },
    decreases i - k,
{
    if k < i {
        lemma_first_at_found(s, b, k + 1, i);
    }
}

/// Reads a rate-limit header value as a rounded decimal number, exactly as
/// `spec_parse_rate_number` describes.
pub fn parse_rate_number(s: &Vec<u8>) -> (r: Option<u64>)
    ensures
        r == spec_parse_rate_number(s@),
{
    let n = s.len();
    let mut dot: usize = 0;
    while dot < n && s[dot] != 46
        invariant
            0 <= dot <= n == s@.len(),
            forall|j: int| 0 <= j < dot ==> s@[j] != 46,
        decreases n - dot,
    {
        dot += 1;
    }
    proof {
        lemma_first_at_found(s@, 46, 0, dot as int);
    }
    let ghost ip = s@.subrange(0, dot as int);
    if dot < 1 || dot > 19 {
        return None;
    }
    let mut acc: u64 = 0;
    let mut i: usize = 0;
    while i < dot
        invariant
            0 <= i <= dot <= 19,
            dot <= s@.len(),
            first_at(s@, 46, 0) == dot as int,
            ip == s@.subrange(0, dot as int),
            forall|j: int| 0 <= j < i ==> is_digit_byte(#[trigger] ip[j]),
            acc == digits_value(ip.subrange(0, i as int)),
            acc < pow10(i as nat),
        decreases dot - i,
    {
        let b = s[i];
        if b < 48 || b > 57 {
            proof {
                assert(rate_int_part(s@) == ip);
                assert(!is_digit_byte(ip[i as int]));
            }
            return None;
        }
        proof {
            assert(ip.subrange(0, i + 1).drop_last() =~= ip.subrange(0, i as int));
            assert(ip.subrange(0, i + 1).last() == ip[i as int]);
            lemma_pow10_mono(i as nat, 18);
            reveal_with_fuel(pow10, 21);
            assert(pow10(18) == 1000000000000000000nat);
            assert(pow10(19) == 10000000000000000000nat);
        }
        acc = acc * 10 + ((b - 48) as u64);
        i += 1;
    }
    proof {
        assert(ip.subrange(0, dot as int) =~= ip);
        reveal_with_fuel(pow10, 21);
        lemma_pow10_mono(dot as nat, 19);
        assert(pow10(19) == 10000000000000000000nat);
    }
    let mut round_up: u64 = 0;
    if dot < n {
        let mut j: usize = dot + 1;
        while j < n
            invariant
                1 <= dot <= 19,
                dot + 1 <= j <= n == s@.len(),
                first_at(s@, 46, 0) == dot as int,
                forall|k: int| dot + 1 <= k < j ==> is_digit_byte(#[trigger] s@[k]),
            decreases n - j,
        {
            let b = s[j];
            if b < 48 || b > 57 {
                proof {
                    let fp = rate_frac_part(s@);
                    assert(fp[j - dot - 1] == s@[j as int]);
                    assert(!is_digit_byte(fp[j - dot - 1]));
                }
                return None;
            }
            j += 1;
        }
        if dot + 1 < n && s[dot + 1] >= 53 {
            round_up = 1;
        }
        proof {
            let fp = rate_frac_part(s@);
            assert(forall|k: int| 0 <= k < fp.len() ==> is_digit_byte(#[trigger] fp[k]));
        }
    }
    Some(acc + round_up)
}


/// True for bytes that www-form-urlencoding leaves as they are: ASCII
/// letters and digits, and `*`, `-`, `.`, `_`.
pub open spec fn is_form_unreserved(b: u8) -> bool {
    ||| 48 <= b <= 57
    ||| 65 <= b <= 90
    ||| 97 <= b <= 122
    ||| b == 42
    ||| b == 45
    ||| b == 46
    ||| b == 95
}

/// The upper-case hexadecimal digit for a value below sixteen.
pub open spec fn hex_digit(n: u8) -> u8 {
    if n < 10 {
        (48 + n) as u8
    } else {
        (55 + n) as u8
    }
}

/// How one byte is www-form-urlencoded: unreserved bytes stand for
/// themselves, a space becomes `+`, and every other byte becomes a
/// percent-escape with two upper-case hexadecimal digits.
pub open spec fn form_enc_byte(b: u8) -> Seq<u8> {
    if is_form_unreserved(b) {
        seq![b]
    } else if b == 32 {
        seq![43u8]
    } else {
        seq![37u8, hex_digit(b / 16), hex_digit(b % 16)]
    }
}

/// The www-form-urlencoding of a byte string.
pub open spec fn form_enc(s: Seq<u8>) -> Seq<u8>
    decreases s.len(),
{
    if s.len() == 0 {
        Seq::<u8>::empty()
    } else {
        form_enc(s.drop_last()) + form_enc_byte(s.last())
    }
}

/// Appends the www-form-urlencoding of `s` to `out`.
pub fn form_urlencode_into(out: &mut Vec<u8>, s: &Vec<u8>)
    ensures
        final(out)@ == old(out)@ + form_enc(s@),
{
    let n = s.len();
    let mut i: usize = 0;
    while i < n
        invariant
            0 <= i <= n == s@.len(),
            out@ == old(out)@ + form_enc(s@.subrange(0, i as int)),
        decreases n - i,
    {
        let b = s[i];
        if (48 <= b && b <= 57) || (65 <= b && b <= 90) || (97 <= b && b <= 122) || b == 42 || b
            == 45 || b == 46 || b == 95 {
            out.push(b);
        } else if b == 32 {
            out.push(43);
        } else {
            out.push(37);
            out.push(hex_digit_exec(b / 16));
            out.push(hex_digit_exec(b % 16));
        }
        proof {
            let pre = s@.subrange(0, i as int);
            let cur = s@.subrange(0, i + 1);
            assert(cur.drop_last() =~= pre);
            assert(cur.last() == s@[i as int]);
        }
        i += 1;
    }
    proof {
        assert(s@.subrange(0, n as int) =~= s@);
    }
}

/// The www-form-urlencoding of a byte string.
pub fn form_urlencode(s: &Vec<u8>) -> (r: Vec<u8>)
    ensures
        r@ == form_enc(s@),
{
    let mut out: Vec<u8> = Vec::new();
    form_urlencode_into(&mut out, s);
    out
}

/// The upper-case hexadecimal digit for a value below sixteen.
fn hex_digit_exec(n: u8) -> (r: u8)
    requires
        n < 16,
    ensures
        r == hex_digit(n),
{
    if n < 10 {
        48 + n
    } else {
        55 + n
    }
}

/// True for the bytes that are hexadecimal digits, in either case.
pub open spec fn is_hex_byte(b: u8) -> bool {
    ||| 48 <= b <= 57
    ||| 65 <= b <= 70
    ||| 97 <= b <= 102
}

/// The value of one hexadecimal digit byte.
pub open spec fn hex_value(b: u8) -> u8 {
    if 48 <= b <= 57 {
        (b - 48) as u8
    } else if 65 <= b <= 70 {
        (b - 55) as u8
    } else {
        (b - 87) as u8
    }
}

/// How a www-form-urlencoded byte string reads back: `+` stands for a
/// space, a percent-escape with two hexadecimal digits stands for the
/// escaped byte, and every other byte stands for itself (a malformed
/// escape is taken literally).
pub open spec fn form_dec(s: Seq<u8>) -> Seq<u8>
    decreases s.len(),
{
    if s.len() == 0 {
        Seq::<u8>::empty()
    } else if s[0] == 43 {
        seq![32u8] + form_dec(s.drop_first())
    } else if s[0] == 37 && s.len() >= 3 && is_hex_byte(s[1]) && is_hex_byte(s[2]) {
        seq![(hex_value(s[1]) * 16 + hex_value(s[2])) as u8] + form_dec(s.skip(3))
    } else {
        seq![s[0]] + form_dec(s.drop_first())
    }
}

/// Decodes the www-form-urlencoded range `[from, to)` of `s`.
pub fn form_urldecode_range(s: &Vec<u8>, from: usize, to: usize) -> (r: Vec<u8>)
    requires
        from <= to <= s@.len(),
    ensures
        r@ == form_dec(s@.subrange(from as int, to as int)),
{
    let mut out: Vec<u8> = Vec::new();
    let mut i: usize = from;
    proof {
        assert(out@ + form_dec(s@.subrange(from as int, to as int)) == form_dec(
            s@.subrange(from as int, to as int),
        ));
    }
    while i < to
        invariant
            from <= i <= to <= s@.len(),
            form_dec(s@.subrange(from as int, to as int)) == out@ + form_dec(
                s@.subrange(i as int, to as int),
            ),
        decreases to - i,
    {
        let ghost rest = s@.subrange(i as int, to as int);
        let b = s[i];
        if b == 43 {
            proof {
                assert(rest.drop_first() =~= s@.subrange(i + 1, to as int));
            }
            out.push(32);
            i += 1;
        } else if b == 37 && to - i > 2 && is_hex_byte_exec(s[i + 1]) && is_hex_byte_exec(
            s[i + 2],
        ) {
            proof {
                assert(rest.skip(3) =~= s@.subrange(i + 3, to as int));
                assert(rest[1] == s@[i + 1]);
                assert(rest[2] == s@[i + 2]);
            }
            let v = hex_value_exec(s[i + 1]) * 16 + hex_value_exec(s[i + 2]);
            out.push(v);
            i += 3;
        } else {
            proof {
                assert(rest.drop_first() =~= s@.subrange(i + 1, to as int));
                assert(!(rest[0] == 37 && rest.len() >= 3 && is_hex_byte(rest[1])
                    && is_hex_byte(rest[2])));
            }
            out.push(b);
            i += 1;
        }
    }
    proof {
        assert(s@.subrange(i as int, to as int).len() == 0);
        assert(out@ + form_dec(s@.subrange(i as int, to as int)) =~= out@);
    }
    out
}

/// True for the bytes that are hexadecimal digits, in either case.
fn is_hex_byte_exec(b: u8) -> (r: bool)
    ensures
        r == is_hex_byte(b),
{
    (48 <= b && b <= 57) || (65 <= b && b <= 70) || (97 <= b && b <= 102)
}

/// The value of one hexadecimal digit byte.
fn hex_value_exec(b: u8) -> (r: u8)
    requires
        is_hex_byte(b),
    ensures
        r == hex_value(b),
        r < 16,
{
    if 48 <= b && b <= 57 {
        b - 48
    } else if 65 <= b && b <= 70 {
        b - 55
    } else {
        b - 87
    }
}

/// The index of the first occurrence of `b` in `s` within `[i, end)`, or
/// `end` when there is none.
pub open spec fn first_in(s: Seq<u8>, b: u8, i: int, end: int) -> int
    decreases end - i,
{
    if i < 0 || i >= end {
        end
    } else if s[i] == b {
        i
    } else {
        first_in(s, b, i + 1, end)
    }
}

proof fn lemma_first_in_found(s: Seq<u8>, b: u8, k: int, i: int, end: int)
    requires
        0 <= k <= i <= end,
        forall|j: int| k <= j < i ==> s[j] != b,
        i < end ==> s[i] == b,
    ensures
        first_in(s, b, k, end) == if i < end {
            i
        } else {
            end
        },
    decreases i - k,
{
    if k < i {
        lemma_first_in_found(s, b, k + 1, i, end);
    }
}

/// The key/value pair read from the piece `[i, a)` of a query string: the
/// bytes before the first `=` are the key and the bytes after it are the
/// value (empty when there is no `=`), both www-form-urldecoded.
pub open spec fn pair_at(s: Seq<u8>, i: int, a: int) -> (Seq<u8>, Seq<u8>) {
    let eq = first_in(s, 61, i, a);
    (
        form_dec(s.subrange(i, eq)),
        if eq < a {
            form_dec(s.subrange(eq + 1, a))
        } else {
            Seq::<u8>::empty()
        },
    )
}

/// `first_at` yields an index between its starting point and the length.
pub proof fn lemma_first_at_bounds(s: Seq<u8>, b: u8, i: int)
    requires
        0 <= i <= s.len(),
    ensures
        i <= first_at(s, b, i) <= s.len(),
    decreases s.len() - i,
{
    if i < s.len() && s[i] != b {
        lemma_first_at_bounds(s, b, i + 1);
    }
}

/// The key/value pairs of the query string `s` from position `i` on:
/// pieces are separated by `&`, empty pieces are skipped, and each piece
/// reads as `pair_at` describes.
pub open spec fn query_pairs_from(s: Seq<u8>, i: int) -> Seq<(Seq<u8>, Seq<u8>)>
    decreases s.len() + 1 - i,
    via query_pairs_from_decreases
{
    if i < 0 || i >= s.len() {
        Seq::<(Seq<u8>, Seq<u8>)>::empty()
    } else {
        let a = first_at(s, 38, i);
        let rest = query_pairs_from(s, a + 1);
        if a == i {
            rest
        } else {
            seq![pair_at(s, i, a)] + rest
        }
    }
}

#[via_fn]
proof fn query_pairs_from_decreases(s: Seq<u8>, i: int) {
    if 0 <= i < s.len() {
        lemma_first_at_bounds(s, 38, i);
    }
}

/// The key/value pairs of the query string `s`.
pub open spec fn query_pairs(s: Seq<u8>) -> Seq<(Seq<u8>, Seq<u8>)> {
    query_pairs_from(s, 0)
}

/// The views of a vector of byte-string pairs.
pub open spec fn pairs_view(v: Seq<(Vec<u8>, Vec<u8>)>) -> Seq<(Seq<u8>, Seq<u8>)> {
    v.map_values(|p: (Vec<u8>, Vec<u8>)| (p.0@, p.1@))
}

/// The value bound to `key` by the last pair that carries it, if any
/// (later bindings of a repeated key win).
pub open spec fn spec_lookup(pairs: Seq<(Seq<u8>, Seq<u8>)>, key: Seq<u8>) -> Option<Seq<u8>>
    decreases pairs.len(),
{
    if pairs.len() == 0 {
        None
    } else if pairs.last().0 == key {
        Some(pairs.last().1)
    } else {
        spec_lookup(pairs.drop_last(), key)
    }
}

/// Splits a query string into its key/value pairs, exactly as
/// `query_pairs` describes.
pub fn parse_query(s: &Vec<u8>) -> (r: Vec<(Vec<u8>, Vec<u8>)>)
    ensures
        pairs_view(r@) == query_pairs(s@),
{
    let n = s.len();
    let mut out: Vec<(Vec<u8>, Vec<u8>)> = Vec::new();
    let mut pos: usize = 0;
    proof {
        assert(pairs_view(out@) =~= Seq::<(Seq<u8>, Seq<u8>)>::empty());
    }
    while pos < n
        invariant
            0 <= pos <= n == s@.len(),
            query_pairs(s@) == pairs_view(out@) + query_pairs_from(s@, pos as int),
        decreases n - pos,
    {
        let ghost out0 = out@;
        let mut a: usize = pos;
        while a < n && s[a] != 38
            invariant
                pos <= a <= n == s@.len(),
                forall|j: int| pos <= j < a ==> s@[j] != 38,
            decreases n - a,
        {
            a += 1;
        }
        proof {
            lemma_first_at_found(s@, 38, pos as int, a as int);
        }
        if a > pos {
            let mut eq: usize = pos;
            while eq < a && s[eq] != 61
                invariant
                    pos <= eq <= a <= n == s@.len(),
                    forall|j: int| pos <= j < eq ==> s@[j] != 61,
                decreases a - eq,
            {
                eq += 1;
            }
            proof {
                lemma_first_in_found(s@, 61, pos as int, eq as int, a as int);
            }
            let key = form_urldecode_range(s, pos, eq);
            let val = if eq < a {
                form_urldecode_range(s, eq + 1, a)
            } else {
                Vec::new()
            };
            out.push((key, val));
            proof {
                let pair = pair_at(s@, pos as int, a as int);
                assert(pair.0 == key@ && pair.1 == val@);
                assert(pairs_view(out@) =~= pairs_view(out0) + seq![pair]);
                assert(pairs_view(out0) + (seq![pair] + query_pairs_from(s@, a + 1)) =~= (
                pairs_view(out0) + seq![pair]) + query_pairs_from(s@, a + 1));
            }
        }
        if a == n {
            pos = n;
        } else {
            pos = a + 1;
        }
    }
    proof {
        assert(query_pairs_from(s@, pos as int) =~= Seq::<(Seq<u8>, Seq<u8>)>::empty());
        assert(pairs_view(out@) + query_pairs_from(s@, pos as int) =~= pairs_view(out@));
    }
    out
}

/// The value bound to `key` by the last pair that carries it, copied out,
/// or `None` when no pair carries it.
pub fn lookup_param(pairs: &Vec<(Vec<u8>, Vec<u8>)>, key: &Vec<u8>) -> (r: Option<Vec<u8>>)
    ensures
        match r {
            Some(v) => spec_lookup(pairs_view(pairs@), key@) == Some(v@),
            None => spec_lookup(pairs_view(pairs@), key@) is None,
        },
{
    let n = pairs.len();
    let mut i: usize = n;
    proof {
        assert(pairs_view(pairs@).subrange(0, n as int) =~= pairs_view(pairs@));
    }
    while i > 0
        invariant
            0 <= i <= n == pairs@.len(),
            spec_lookup(pairs_view(pairs@), key@) == spec_lookup(
                pairs_view(pairs@).subrange(0, i as int),
                key@,
            ),
        decreases i,
    {
        i -= 1;
        let ghost pv = pairs_view(pairs@);
        proof {
            assert(pv.subrange(0, i + 1).last() == pv[i as int]);
            assert(pv.subrange(0, i + 1).drop_last() =~= pv.subrange(0, i as int));
        }
        if bytes_eq(&pairs[i].0, key) {
            let mut v: Vec<u8> = Vec::new();
            copy_bytes_into(&mut v, &pairs[i].1);
            return Some(v);
        }
    }
    proof {
        assert(pairs_view(pairs@).subrange(0, 0).len() == 0);
    }
    None
}


/// True exactly when the two byte strings hold the same bytes.
pub fn bytes_eq(a: &Vec<u8>, b: &Vec<u8>) -> (r: bool)
    ensures
        r == (a@ == b@),
{
    if a.len() != b.len() {
        return false;
    }
    let n = a.len();
    let mut i: usize = 0;
    while i < n
        invariant
            0 <= i <= n == a@.len() == b@.len(),
            forall|j: int| 0 <= j < i ==> a@[j] == b@[j],
        decreases n - i,
    {
        if a[i] != b[i] {
            return false;
        }
        i += 1;
    }
    proof {
        assert(a@ =~= b@);
    }
    true
}

/// Appends a copy of `src` to `out`.
pub fn copy_bytes_into(out: &mut Vec<u8>, src: &Vec<u8>)
    ensures
        final(out)@ == old(out)@ + src@,
{
    let n = src.len();
    let mut i: usize = 0;
    while i < n
        invariant
            0 <= i <= n == src@.len(),
            out@ == old(out)@ + src@.subrange(0, i as int),
        decreases n - i,
    {
        out.push(src[i]);
        proof {
            assert(src@.subrange(0, i + 1).drop_last() =~= src@.subrange(0, i as int));
        }
        i += 1;
    }
    proof {
        assert(src@.subrange(0, n as int) =~= src@);
    }
}

/// The UTF-8 bytes of a string, as a function of its characters.
pub open spec fn utf8_bytes(s: Seq<char>) -> Seq<u8> {
    vstd::utf8::encode_utf8(s)
}

/// The bytes of a string.
pub fn str_to_bytes(s: &str) -> (r: Vec<u8>)
    ensures
        r@ == utf8_bytes(s@),
{
    s.as_bytes_vec()
}

/// Appends the bytes of a string to `out`.
pub fn push_str_bytes(out: &mut Vec<u8>, s: &str)
    ensures
        final(out)@ == old(out)@ + utf8_bytes(s@),
{
    let b = str_to_bytes(s);
    copy_bytes_into(out, &b);
}

/// Appends the www-form-urlencoding of a string's bytes to `out`.
pub fn push_form_enc_str(out: &mut Vec<u8>, s: &str)
    ensures
        final(out)@ == old(out)@ + form_enc(utf8_bytes(s@)),
{
    let b = str_to_bytes(s);
    form_urlencode_into(out, &b);
}

/// `now` plus a span of seconds, in milliseconds, saturating at the top of
/// the clock.
pub open spec fn spec_ms_horizon(now: u64, secs: u64) -> u64 {
    if now + secs * 1000 > u64::MAX {
        u64::MAX
    } else {
        (now + secs * 1000) as u64
    }
}

/// `now` plus a span of seconds, in milliseconds, saturating at the top of
/// the clock.
pub fn ms_horizon(now: u64, secs: u64) -> (r: u64)
    ensures
        r == spec_ms_horizon(now, secs),
{
    if secs > u64::MAX / 1000 {
        return u64::MAX;
    }
    let ms = secs * 1000;
    if now > u64::MAX - ms {
        u64::MAX
    } else {
        now + ms
    }
}

} // verus!
