//! Graphic postprocessor: rewrites the bounding viewport declaration inside
//! a vector-graphic byte string to add a margin on every side, so that items
//! placed at the edge of the strip are not clipped when rendered.
//!
//! The declaration has the shape `viewBox="min_x min_y width height"` with
//! four whitespace-separated plain decimal numbers. When the declaration is
//! found and all four numbers parse, it is replaced by
//! `(min_x - margin) (min_y - margin) (width + 2 margin) (height + 2 margin)`
//! and every other byte is preserved; otherwise the input is returned
//! unchanged. This is a best-effort cosmetic transform, never a failure.

use vstd::prelude::*;

verus! {

/// Whitespace accepted between the four viewport numbers: space, tab, line
/// feed, carriage return.
pub open spec fn is_space(b: u8) -> bool {
    b == 32 || b == 9 || b == 10 || b == 13
}

/// Decimal digit byte.
pub open spec fn is_digit(b: u8) -> bool {
    48 <= b <= 57
}

/// The bytes of the viewport declaration opener, `viewBox="`.
pub open spec fn spec_pattern() -> Seq<u8> {
    seq![118u8, 105u8, 101u8, 119u8, 66u8, 111u8, 120u8, 61u8, 34u8]
}

/// Whether the opener occurs in `s` at position `i`.
pub open spec fn spec_match_at(s: Seq<u8>, i: int) -> bool {
    0 <= i && i + 9 <= s.len() && s.subrange(i, i + 9) == spec_pattern()
}

/// Position of the first occurrence of the opener at or after `i`.
pub open spec fn spec_find_pattern_from(s: Seq<u8>, i: int) -> Option<int>
    decreases s.len() - i
    when 0 <= i <= s.len()
{
    if i + 9 > s.len() {
        None
    } else if spec_match_at(s, i) {
        Some(i)
    } else {
        spec_find_pattern_from(s, i + 1)
    }
}

/// Position of the first double-quote byte at or after `i`.
pub open spec fn spec_find_quote_from(s: Seq<u8>, i: int) -> Option<int>
    decreases s.len() - i
    when 0 <= i <= s.len()
{
    if i >= s.len() {
        None
    } else if s[i] == 34 {
        Some(i)
    } else {
        spec_find_quote_from(s, i + 1)
    }
}

/// First position at or after `i` where a token ends: a whitespace byte, or
/// the end of `s`.
pub open spec fn spec_token_end(s: Seq<u8>, i: int) -> int
    decreases s.len() - i
    when 0 <= i <= s.len()
{
    if i >= s.len() {
        i
    } else if is_space(s[i]) {
        i
    } else {
        spec_token_end(s, i + 1)
    }
}

proof fn lemma_token_end_bounds(s: Seq<u8>, i: int)
    requires
        0 <= i <= s.len(),
    ensures
        i <= spec_token_end(s, i) <= s.len(),
    decreases s.len() - i,
{
    if i < s.len() && !is_space(s[i]) {
        lemma_token_end_bounds(s, i + 1);
    }
}

/// The whitespace-separated tokens of `s`, scanning from `i`.
pub open spec fn spec_split_ws_from(s: Seq<u8>, i: int) -> Seq<Seq<u8>>
    decreases s.len() - i
    when 0 <= i <= s.len()
    via spec_split_ws_from_decreases
{
    if i >= s.len() {
        Seq::empty()
    } else if is_space(s[i]) {
        spec_split_ws_from(s, i + 1)
    } else {
        Seq::empty().push(s.subrange(i, spec_token_end(s, i))) + spec_split_ws_from(
            s,
            spec_token_end(s, i),
        )
    }
}

#[via_fn]
proof fn spec_split_ws_from_decreases(s: Seq<u8>, i: int) {
    if 0 <= i < s.len() && !is_space(s[i]) {
        lemma_token_end_bounds(s, i + 1);
    }
}

/// Numeric value of a digit string, most significant digit first.
pub open spec fn spec_digits_value(ds: Seq<u8>) -> int
    decreases ds.len(),
{
    if ds.len() == 0 {
        0
    } else {
        spec_digits_value(ds.drop_last()) * 10 + (ds.last() - 48)
    }
}

/// Ten to the power `n`.
pub open spec fn spec_pow10(n: nat) -> int
    decreases n,
{
    if n == 0 {
        1
    } else {
        10 * spec_pow10((n - 1) as nat)
    }
}

proof fn lemma_pow10_pos(n: nat)
    ensures
        spec_pow10(n) >= 1,
    decreases n,
{
    if n > 0 {
        lemma_pow10_pos((n - 1) as nat);
    }
}

proof fn lemma_pow10_mono(a: nat, b: nat)
    requires
        a <= b,
    ensures
        spec_pow10(a) <= spec_pow10(b),
    decreases b,
{
    if a < b {
        lemma_pow10_mono(a, (b - 1) as nat);
        lemma_pow10_pos((b - 1) as nat);
    }
}

/// A digit string of length `n` denotes a value below ten to the `n`.
proof fn lemma_digits_value_bound(ds: Seq<u8>)
    requires
        forall|k: int| 0 <= k < ds.len() ==> is_digit(#[trigger] ds[k]),
    ensures
        0 <= spec_digits_value(ds) < spec_pow10(ds.len()),
    decreases ds.len(),
{
    if ds.len() > 0 {
        let prefix = ds.drop_last();
        assert(forall|k: int| 0 <= k < prefix.len() ==> is_digit(#[trigger] prefix[k])) by {
            assert(forall|k: int| 0 <= k < prefix.len() ==> prefix[k] == ds[k]);
        }
        lemma_digits_value_bound(prefix);
        assert(is_digit(ds[ds.len() - 1]));
    }
}

/// Position of the first dot byte at or after `i`, or the length of `t`.
pub open spec fn spec_dot_pos(t: Seq<u8>, i: int) -> int
    decreases t.len() - i
    when 0 <= i <= t.len()
{
    if i >= t.len() {
        i
    } else if t[i] == 46 {
        i
    } else {
        spec_dot_pos(t, i + 1)
    }
}

proof fn lemma_dot_pos_bounds(t: Seq<u8>, i: int)
    requires
        0 <= i <= t.len(),
    ensures
        i <= spec_dot_pos(t, i) <= t.len(),
    decreases t.len() - i,
{
    if i < t.len() && t[i] != 46 {
        lemma_dot_pos_bounds(t, i + 1);
    }
}

/// Largest digit count a token may carry; keeps every mantissa and every
/// adjusted mantissa well inside 128-bit arithmetic.
pub const MAX_DECIMAL_DIGITS: usize = 18;

/// Whether the token opens with a minus sign.
pub open spec fn spec_parse_neg(t: Seq<u8>) -> bool {
    t.len() > 0 && t[0] == 45
}

/// The token without its sign.
pub open spec fn spec_parse_body(t: Seq<u8>) -> Seq<u8> {
    if spec_parse_neg(t) {
        t.drop_first()
    } else {
        t
    }
}

/// The digits of the token, integer part then fraction part, dot removed.
pub open spec fn spec_parse_digits(t: Seq<u8>) -> Seq<u8> {
    let body = spec_parse_body(t);
    let dot = spec_dot_pos(body, 0);
    body.subrange(0, dot) + if dot < body.len() {
        body.subrange(dot + 1, body.len() as int)
    } else {
        Seq::empty()
    }
}

/// The number of fraction digits of the token.
pub open spec fn spec_parse_scale(t: Seq<u8>) -> nat {
    let body = spec_parse_body(t);
    let dot = spec_dot_pos(body, 0);
    if dot < body.len() {
        (body.len() - dot - 1) as nat
    } else {
        0
    }
}

/// Parses a token as a plain decimal number: an optional leading minus, then
/// digits with at most one dot among them; at least one digit and at most 18
/// in all. The result is the signed mantissa together with the number of
/// fraction digits: the token denotes `mantissa / 10^scale`. Anything else
/// (an exponent, a second sign, an empty token) does not parse.
pub open spec fn spec_parse_decimal(t: Seq<u8>) -> Option<(int, nat)> {
    let digits = spec_parse_digits(t);
    if digits.len() < 1 || digits.len() > MAX_DECIMAL_DIGITS {
        None
    } else if exists|k: int|
        0 <= k < spec_parse_digits(t).len() && !is_digit(#[trigger] spec_parse_digits(t)[k]) {
        None
    } else {
        let m = spec_digits_value(digits);
        Some(((if spec_parse_neg(t) { -m } else { m }), spec_parse_scale(t)))
    }
}

/// Shifts a decimal by a whole amount: adds `delta` to the denoted value by
/// adding `delta` times ten to the scale to the mantissa.
pub open spec fn spec_adjust(d: (int, nat), delta: int) -> (int, nat) {
    (d.0 + delta * spec_pow10(d.1), d.1)
}

/// Strips trailing zero fraction digits from a non-negative mantissa.
pub open spec fn spec_canon(m: int, scale: nat) -> (int, nat)
    decreases scale,
{
    if scale == 0 || m % 10 != 0 {
        (m, scale)
    } else {
        spec_canon(m / 10, (scale - 1) as nat)
    }
}

/// The decimal digits of `n`, most significant first; `0` is one digit.
pub open spec fn spec_digits_seq(n: nat) -> Seq<u8>
    decreases n,
{
    if n < 10 {
        seq![(48 + n) as u8]
    } else {
        spec_digits_seq(n / 10).push((48 + n % 10) as u8)
    }
}

/// The lowest `width` decimal digits of `n`, most significant first, padded
/// with zeros on the left.
pub open spec fn spec_padded_digits(n: int, width: nat) -> Seq<u8>
    decreases width,
{
    if width == 0 {
        Seq::empty()
    } else {
        spec_padded_digits(n / 10, (width - 1) as nat).push((48 + n % 10) as u8)
    }
}

/// The canonical byte form of the decimal `mantissa / 10^scale`: trailing
/// zero fraction digits are dropped, a zero value prints as a bare `0`, and
/// otherwise an optional minus precedes the integer digits, followed by a
/// dot and the fraction digits when any fraction remains.
pub open spec fn spec_format_decimal(mantissa: int, scale: nat) -> Seq<u8> {
    let a = if mantissa < 0 {
        -mantissa
    } else {
        mantissa
    };
    let canon = spec_canon(a, scale);
    let ca = canon.0;
    let cs = canon.1;
    if ca == 0 {
        seq![48u8]
    } else {
        (if mantissa < 0 {
            seq![45u8]
        } else {
            Seq::empty()
        }) + spec_digits_seq((ca / spec_pow10(cs)) as nat) + (if cs > 0 {
            seq![46u8] + spec_padded_digits(ca % spec_pow10(cs), cs)
        } else {
            Seq::empty()
        })
    }
}

/// The whole transform on the byte string: find the first viewport opener,
/// take the quoted content up to the next quote, split it on whitespace; if
/// that yields exactly four plain decimals, rewrite them with the margin
/// applied (`-margin` on the two minima, `+2 margin` on the two extents) and
/// keep every other byte; in every other case the input stands unchanged.
pub open spec fn spec_expand_viewbox(s: Seq<u8>, margin: int) -> Seq<u8> {
    match spec_find_pattern_from(s, 0) {
        None => s,
        Some(at) => {
            let cstart = at + 9;
            match spec_find_quote_from(s, cstart) {
                None => s,
                Some(cend) => {
                    let content = s.subrange(cstart, cend);
                    let toks = spec_split_ws_from(content, 0);
                    if toks.len() != 4 {
                        s
                    } else {
                        match (
                            spec_parse_decimal(toks[0]),
                            spec_parse_decimal(toks[1]),
                            spec_parse_decimal(toks[2]),
                            spec_parse_decimal(toks[3]),
                        ) {
                            (Some(d0), Some(d1), Some(d2), Some(d3)) => {
                                let n0 = spec_adjust(d0, -margin);
                                let n1 = spec_adjust(d1, -margin);
                                let n2 = spec_adjust(d2, 2 * margin);
                                let n3 = spec_adjust(d3, 2 * margin);
                                s.subrange(0, cstart) + spec_format_decimal(n0.0, n0.1) + seq![
                                    32u8,
                                ] + spec_format_decimal(n1.0, n1.1) + seq![32u8]
                                    + spec_format_decimal(n2.0, n2.1) + seq![32u8]
                                    + spec_format_decimal(n3.0, n3.1) + s.subrange(
                                    cend,
                                    s.len() as int,
                                )
                            },
                            _ => s,
                        }
                    }
                },
            }
        },
    }
}

/// Whether `b` is one of the accepted whitespace bytes.
fn is_space_b(b: u8) -> (r: bool)
    ensures
        r == is_space(b),
{
    b == 32 || b == 9 || b == 10 || b == 13
}

/// The `k`-th byte of the viewport declaration opener.
fn pattern_byte(k: usize) -> (b: u8)
    requires
        k < 9,
    ensures
        b == spec_pattern()[k as int],
{
    if k == 0 {
        118
    } else if k == 1 {
        105
    } else if k == 2 {
        101
    } else if k == 3 {
        119
    } else if k == 4 {
        66
    } else if k == 5 {
        111
    } else if k == 6 {
        120
    } else if k == 7 {
        61
    } else {
        34
    }
}

/// Whether the opener occurs in `svg` at position `i`.
fn match_at(svg: &Vec<u8>, i: usize) -> (r: bool)
    requires
        i + 9 <= svg.len(),
    ensures
        r == spec_match_at(svg@, i as int),
{
    let mut k: usize = 0;
    while k < 9
        invariant
            0 <= k <= 9,
            i + 9 <= svg.len(),
            forall|m: int| 0 <= m < k ==> svg@[i + m] == spec_pattern()[m],
        decreases 9 - k,
    {
        if svg[i + k] != pattern_byte(k) {
            proof {
                assert(svg@.subrange(i as int, i + 9)[k as int] == svg@[i + k]);
            }
            return false;
        }
        k = k + 1;
    }
    proof {
        assert(svg@.subrange(i as int, i + 9) =~= spec_pattern());
    }
    true
}

/// Position of the first occurrence of the opener, if any.
fn find_pattern(svg: &Vec<u8>) -> (r: Option<usize>)
    ensures
        r matches Some(i) ==> spec_find_pattern_from(svg@, 0) == Some(i as int) && i + 9
            <= svg.len(),
        r is None ==> spec_find_pattern_from(svg@, 0) is None,
{
    if svg.len() < 9 {
        return None;
    }
    let mut i: usize = 0;
    while i <= svg.len() - 9
        invariant
            9 <= svg.len(),
            0 <= i <= svg.len() - 8,
            spec_find_pattern_from(svg@, 0) == spec_find_pattern_from(svg@, i as int),
        decreases svg.len() - i,
    {
        if match_at(svg, i) {
            return Some(i);
        }
        i = i + 1;
    }
    None
}

/// Position of the first double quote at or after `from`, if any.
fn find_quote_from(svg: &Vec<u8>, from: usize) -> (r: Option<usize>)
    requires
        from <= svg.len(),
    ensures
        r matches Some(j) ==> spec_find_quote_from(svg@, from as int) == Some(j as int) && from
            <= j < svg.len(),
        r is None ==> spec_find_quote_from(svg@, from as int) is None,
{
    let mut j: usize = from;
    while j < svg.len()
        invariant
            from <= j <= svg.len(),
            spec_find_quote_from(svg@, from as int) == spec_find_quote_from(svg@, j as int),
        decreases svg.len() - j,
    {
        if svg[j] == 34 {
            return Some(j);
        }
        j = j + 1;
    }
    None
}

/// The bytes of `src` between `from` and `to`, as a fresh vector.
fn copy_range(src: &Vec<u8>, from: usize, to: usize) -> (out: Vec<u8>)
    requires
        from <= to <= src.len(),
    ensures
        out@ == src@.subrange(from as int, to as int),
{
    let mut out: Vec<u8> = Vec::new();
    let mut i: usize = from;
    while i < to
        invariant
            from <= i <= to <= src.len(),
            out@ == src@.subrange(from as int, i as int),
        decreases to - i,
    {
        out.push(src[i]);
        proof {
            assert(out@ =~= src@.subrange(from as int, i + 1));
        }
        i = i + 1;
    }
    out
}

/// First token end at or after `start`.
fn token_end_from(content: &Vec<u8>, start: usize) -> (e: usize)
    requires
        start <= content.len(),
    ensures
        e == spec_token_end(content@, start as int),
        start <= e <= content.len(),
{
    let mut pos: usize = start;
    while pos < content.len()
        invariant
            start <= pos <= content.len(),
            spec_token_end(content@, start as int) == spec_token_end(content@, pos as int),
        decreases content.len() - pos,
    {
        if is_space_b(content[pos]) {
            return pos;
        }
        pos = pos + 1;
    }
    pos
}

/// The whitespace-separated tokens of `content`, in order.
fn split_ws(content: &Vec<u8>) -> (toks: Vec<Vec<u8>>)
    ensures
        toks@.len() == spec_split_ws_from(content@, 0).len(),
        forall|j: int|
            0 <= j < toks@.len() ==> toks@[j]@ == spec_split_ws_from(content@, 0)[j],
{
    let ghost full = spec_split_ws_from(content@, 0);
    let mut toks: Vec<Vec<u8>> = Vec::new();
    let ghost mut done: Seq<Seq<u8>> = Seq::empty();
    let mut pos: usize = 0;
    while pos < content.len()
        invariant
            0 <= pos <= content.len(),
            full == spec_split_ws_from(content@, 0),
            full == done + spec_split_ws_from(content@, pos as int),
            toks@.len() == done.len(),
            forall|j: int| 0 <= j < done.len() ==> toks@[j]@ == done[j],
        decreases content.len() - pos,
    {
        if is_space_b(content[pos]) {
            pos = pos + 1;
        } else {
            let tok_end = token_end_from(content, pos);
            proof {
                lemma_token_end_bounds(content@, pos + 1);
            }
            let tok = copy_range(content, pos, tok_end);
            toks.push(tok);
            proof {
                let piece = content@.subrange(pos as int, tok_end as int);
                assert(spec_split_ws_from(content@, pos as int) == Seq::empty().push(piece)
                    + spec_split_ws_from(content@, tok_end as int));
                done = done.push(piece);
                assert(full =~= done + spec_split_ws_from(content@, tok_end as int));
            }
            pos = tok_end;
        }
    }
    proof {
        assert(full =~= done);
    }
    toks
}

/// Ten to the power `e`, exactly.
fn pow10_u128(e: u32) -> (p: u128)
    requires
        e <= 18,
    ensures
        p == spec_pow10(e as nat),
        1 <= p,
{
    proof {
        lemma_pow10_18();
    }
    let mut p: u128 = 1;
    let mut i: u32 = 0;
    while i < e
        invariant
            0 <= i <= e <= 18,
            p == spec_pow10(i as nat),
        decreases e - i,
    {
        proof {
            lemma_pow10_18();
            lemma_pow10_mono((i + 1) as nat, 18nat);
            lemma_pow10_pos(i as nat);
        }
        p = p * 10;
        i = i + 1;
    }
    proof {
        lemma_pow10_pos(e as nat);
    }
    p
}

/// Ten to the eighteenth, written out.
proof fn lemma_pow10_18()
    ensures
        spec_pow10(18) == 1000000000000000000,
{
    reveal_with_fuel(spec_pow10, 20);
}

/// Index of the first dot byte within the suffix of `t` that starts at
/// `start`, relative to that suffix, or the suffix's length when it has no
/// dot.
fn dot_pos_from(t: &Vec<u8>, start: usize) -> (d: usize)
    requires
        start <= t.len(),
    ensures
        d == spec_dot_pos(t@.subrange(start as int, t@.len() as int), 0),
        d <= t@.len() - start,
{
    let ghost body = t@.subrange(start as int, t@.len() as int);
    let mut i: usize = start;
    while i < t.len()
        invariant
            start <= i <= t.len(),
            body == t@.subrange(start as int, t@.len() as int),
            spec_dot_pos(body, 0) == spec_dot_pos(body, (i - start) as int),
        decreases t.len() - i,
    {
        if t[i] == 46 {
            proof {
                assert(body[(i - start) as int] == t@[i as int]);
            }
            return i - start;
        }
        proof {
            assert(body[(i - start) as int] == t@[i as int]);
        }
        i = i + 1;
    }
    i - start
}

/// Parses a token as a plain decimal number; the result pairs the signed
/// mantissa with the fraction-digit count, exactly as `spec_parse_decimal`
/// states it.
fn parse_decimal(t: &Vec<u8>) -> (r: Option<(i128, u32)>)
    ensures
        r matches Some(p) ==> {
            &&& spec_parse_decimal(t@) == Some((p.0 as int, p.1 as nat))
            &&& -spec_pow10(18) < p.0 < spec_pow10(18)
            &&& p.1 <= 18
        },
        r is None ==> spec_parse_decimal(t@) is None,
{
    proof {
        lemma_pow10_18();
    }
    let neg = t.len() > 0 && t[0] == 45;
    let start: usize = if neg {
        1
    } else {
        0
    };
    let ghost body: Seq<u8> = if neg {
        t@.drop_first()
    } else {
        t@
    };
    proof {
        assert(body =~= t@.subrange(start as int, t@.len() as int));
    }

    // Locate the dot within the body, if any.
    let dot_b: usize = dot_pos_from(t, start);
    proof {
        lemma_dot_pos_bounds(body, 0);
    }

    let int_part = copy_range(t, start, start + dot_b);
    proof {
        assert(int_part@ =~= body.subrange(0, dot_b as int));
    }
    let frac_part: Vec<u8> = if start + dot_b < t.len() {
        copy_range(t, start + dot_b + 1, t.len())
    } else {
        Vec::new()
    };
    proof {
        if start + dot_b < t.len() {
            assert(frac_part@ =~= body.subrange(dot_b + 1, body.len() as int));
        } else {
            assert(frac_part@ =~= Seq::<u8>::empty());
        }
    }
    let frac_len = frac_part.len();

    let ghost g_int: Seq<u8> = int_part@;
    let ghost g_frac: Seq<u8> = frac_part@;
    let mut digits = int_part;
    let mut frac_moved = frac_part;
    digits.append(&mut frac_moved);
    proof {
        assert(spec_parse_neg(t@) == neg);
        assert(spec_parse_body(t@) == body);
        assert(spec_dot_pos(body, 0) == dot_b as int);
        assert(body.subrange(0, dot_b as int) == g_int);
        if dot_b < body.len() {
            assert(body.subrange(dot_b + 1, body.len() as int) == g_frac);
        }
        assert(spec_parse_digits(t@) == g_int + g_frac);
        assert(digits@ == spec_parse_digits(t@));
        assert(spec_parse_scale(t@) == frac_len as nat);
    }

    if digits.len() < 1 || digits.len() > MAX_DECIMAL_DIGITS {
        return None;
    }

    // Every byte must be a decimal digit.
    let mut k: usize = 0;
    while k < digits.len()
        invariant
            0 <= k <= digits.len(),
            digits@ == spec_parse_digits(t@),
            forall|m: int| 0 <= m < k ==> is_digit(#[trigger] spec_parse_digits(t@)[m]),
        decreases digits.len() - k,
    {
        let b = digits[k];
        if b < 48 || b > 57 {
            proof {
                assert(!is_digit(spec_parse_digits(t@)[k as int]));
                assert(exists|kk: int|
                    0 <= kk < spec_parse_digits(t@).len() && !is_digit(
                        #[trigger] spec_parse_digits(t@)[kk],
                    ));
                assert(spec_parse_decimal(t@) is None);
            }
            return None;
        }
        k = k + 1;
    }

    // Accumulate the mantissa.
    let ghost spec_digits: Seq<u8> = spec_parse_digits(t@);
    let mut m: u64 = 0;
    let mut v: usize = 0;
    while v < digits.len()
        invariant
            0 <= v <= digits.len() <= 18,
            digits@ == spec_digits,
            spec_digits == spec_parse_digits(t@),
            forall|n: int|
                0 <= n < spec_parse_digits(t@).len() ==> is_digit(
                    #[trigger] spec_parse_digits(t@)[n],
                ),
            m == spec_digits_value(spec_digits.subrange(0, v as int)),
            m < spec_pow10(v as nat),
        decreases digits.len() - v,
    {
        proof {
            lemma_pow10_18();
            lemma_pow10_mono((v + 1) as nat, 18nat);
            let prefix = spec_digits.subrange(0, v + 1);
            assert(prefix.drop_last() =~= spec_digits.subrange(0, v as int));
            assert(prefix.last() == spec_digits[v as int]);
        }
        m = m * 10 + ((digits[v] - 48) as u64);
        v = v + 1;
    }
    proof {
        assert(spec_digits.subrange(0, spec_digits.len() as int) =~= spec_digits);
        lemma_pow10_mono(spec_digits.len(), 18nat);
    }

    let mantissa: i128 = if neg {
        -(m as i128)
    } else {
        m as i128
    };
    Some((mantissa, frac_len as u32))
}

/// The decimal digits of `n`, most significant first.
fn digits_of(n: u128) -> (d: Vec<u8>)
    ensures
        d@ == spec_digits_seq(n as nat),
{
    let mut v: Vec<u8> = Vec::new();
    if n == 0 {
        v.push(48);
        return v;
    }
    let mut cur: u128 = n;
    while cur > 0
        invariant
            cur > 0 ==> spec_digits_seq(n as nat) == spec_digits_seq(cur as nat) + v@,
            cur == 0 ==> spec_digits_seq(n as nat) == v@,
        decreases cur,
    {
        let ghost prev: u128 = cur;
        let ghost prev_v: Seq<u8> = v@;
        let d: u8 = (cur % 10) as u8 + 48;
        v.insert(0, d);
        cur = cur / 10;
        proof {
            assert(v@ =~= seq![d] + prev_v);
            if prev >= 10 {
                assert(spec_digits_seq(prev as nat) == spec_digits_seq((prev / 10) as nat).push(
                    (48 + (prev as nat) % 10) as u8,
                ));
                assert(spec_digits_seq((prev / 10) as nat).push(d) =~= spec_digits_seq(
                    (prev / 10) as nat,
                ) + seq![d]);
                assert(spec_digits_seq(n as nat) =~= spec_digits_seq(cur as nat) + v@);
            } else {
                assert(spec_digits_seq(prev as nat) == seq![(48 + (prev as nat)) as u8]);
                assert(spec_digits_seq(n as nat) =~= v@);
            }
        }
    }
    v
}

/// The lowest `width` decimal digits of `n`, zero-padded on the left.
fn padded_of(n: u128, width: u32) -> (d: Vec<u8>)
    ensures
        d@ == spec_padded_digits(n as int, width as nat),
{
    let mut v: Vec<u8> = Vec::new();
    let mut cur: u128 = n;
    let mut w: u32 = width;
    while w > 0
        invariant
            spec_padded_digits(n as int, width as nat) == spec_padded_digits(
                cur as int,
                w as nat,
            ) + v@,
        decreases w,
    {
        let ghost prev: u128 = cur;
        let ghost prev_v: Seq<u8> = v@;
        let d: u8 = (cur % 10) as u8 + 48;
        v.insert(0, d);
        cur = cur / 10;
        w = w - 1;
        proof {
            assert(v@ =~= seq![d] + prev_v);
            assert(spec_padded_digits(prev as int, (w + 1) as nat) == spec_padded_digits(
                (prev / 10) as int,
                w as nat,
            ).push(d));
            assert(spec_padded_digits((prev / 10) as int, w as nat).push(d)
                =~= spec_padded_digits((prev / 10) as int, w as nat) + seq![d]);
            assert(spec_padded_digits(n as int, width as nat) =~= spec_padded_digits(
                cur as int,
                w as nat,
            ) + v@);
        }
    }
    v
}

/// Formats `mantissa / 10^scale` in canonical decimal form, exactly as
/// `spec_format_decimal` states it.
fn format_decimal(mantissa: i128, scale: u32) -> (out: Vec<u8>)
    requires
        scale <= 18,
        -170141183460469231731687303715884105727i128 <= mantissa,
    ensures
        out@ == spec_format_decimal(mantissa as int, scale as nat),
{
    let neg = mantissa < 0;
    let a0: u128 = if neg {
        (-mantissa) as u128
    } else {
        mantissa as u128
    };
    let mut a: u128 = a0;
    let mut cs: u32 = scale;
    while cs > 0 && a % 10 == 0
        invariant
            cs <= scale,
            spec_canon(a0 as int, scale as nat) == spec_canon(a as int, cs as nat),
        decreases cs,
    {
        a = a / 10;
        cs = cs - 1;
    }
    // (a, cs) is now the canonical pair.
    let ghost canon = spec_canon(a0 as int, scale as nat);
    proof {
        assert(canon == (a as int, cs as nat));
    }
    if a == 0 {
        let mut out: Vec<u8> = Vec::new();
        out.push(48);
        proof {
            assert(out@ =~= seq![48u8]);
        }
        return out;
    }
    let p = pow10_u128(cs);
    let hi: u128 = a / p;
    let lo: u128 = a % p;
    let mut hi_digits = digits_of(hi);
    let mut out: Vec<u8> = Vec::new();
    if neg {
        out.push(45);
    }
    out.append(&mut hi_digits);
    if cs > 0 {
        out.push(46);
        let mut lo_digits = padded_of(lo, cs);
        out.append(&mut lo_digits);
    }
    proof {
        assert(out@ =~= spec_format_decimal(mantissa as int, scale as nat));
    }
    out
}

/// Shifts a parsed decimal by the whole amount `delta`, exactly as
/// `spec_adjust` states it on the mantissa.
fn adjust(mantissa: i128, scale: u32, delta: i128) -> (r: i128)
    requires
        scale <= 18,
        -spec_pow10(18) < mantissa < spec_pow10(18),
        -18446744073709551616i128 <= delta <= 18446744073709551616i128,
    ensures
        r == mantissa + delta * spec_pow10(scale as nat),
        -170141183460469231731687303715884105727i128 <= r,
        r < 170141183460469231731687303715884105727i128,
{
    proof {
        lemma_pow10_18();
        lemma_pow10_mono(scale as nat, 18nat);
        lemma_pow10_pos(scale as nat);
    }
    let p: i128 = pow10_u128(scale) as i128;
    proof {
        assert(delta * p <= 18446744073709551616000000000000000000int && delta * p
            >= -18446744073709551616000000000000000000int) by (nonlinear_arith)
            requires
                -18446744073709551616i128 <= delta <= 18446744073709551616i128,
                1 <= p <= 1000000000000000000i128,
        ;
    }
    mantissa + delta * p
}

/// Rewrites the viewport declaration of `svg` with `margin` applied: the two
/// minima are lowered by `margin`, the two extents raised by twice `margin`,
/// and every other byte is preserved; when no well-formed declaration is
/// found, the input is returned byte-for-byte unchanged. Exactly
/// `spec_expand_viewbox`.
pub fn expand_svg_viewbox(svg: &Vec<u8>, margin: i64) -> (r: Vec<u8>)
    ensures
        r@ == spec_expand_viewbox(svg@, margin as int),
        spec_find_pattern_from(svg@, 0) is None ==> r@ == svg@,
{
    proof {
        lemma_pow10_18();
    }
    let at: usize = match find_pattern(svg) {
        Some(i) => i,
        None => {
            let out = copy_range(svg, 0, svg.len());
            proof {
                assert(out@ =~= svg@);
            }
            return out;
        },
    };
    let cstart: usize = at + 9;
    let cend: usize = match find_quote_from(svg, cstart) {
        Some(j) => j,
        None => {
            let out = copy_range(svg, 0, svg.len());
            proof {
                assert(out@ =~= svg@);
            }
            return out;
        },
    };
    let content = copy_range(svg, cstart, cend);
    let toks = split_ws(&content);
    if toks.len() != 4 {
        let out = copy_range(svg, 0, svg.len());
        proof {
            assert(out@ =~= svg@);
        }
        return out;
    }
    let p0 = parse_decimal(&toks[0]);
    let p1 = parse_decimal(&toks[1]);
    let p2 = parse_decimal(&toks[2]);
    let p3 = parse_decimal(&toks[3]);
    match (p0, p1, p2, p3) {
        (Some(d0), Some(d1), Some(d2), Some(d3)) => {
            let neg_margin: i128 = -(margin as i128);
            let dbl_margin: i128 = 2 * (margin as i128);
            let a0 = adjust(d0.0, d0.1, neg_margin);
            let a1 = adjust(d1.0, d1.1, neg_margin);
            let a2 = adjust(d2.0, d2.1, dbl_margin);
            let a3 = adjust(d3.0, d3.1, dbl_margin);
            let mut out = copy_range(svg, 0, cstart);
            let mut f0 = format_decimal(a0, d0.1);
            out.append(&mut f0);
            out.push(32);
            let mut f1 = format_decimal(a1, d1.1);
            out.append(&mut f1);
            out.push(32);
            let mut f2 = format_decimal(a2, d2.1);
            out.append(&mut f2);
            out.push(32);
            let mut f3 = format_decimal(a3, d3.1);
            out.append(&mut f3);
            let mut tail = copy_range(svg, cend, svg.len());
            out.append(&mut tail);
            proof {
                assert(out@ =~= spec_expand_viewbox(svg@, margin as int));
            }
            out
        },
        _ => {
            let out = copy_range(svg, 0, svg.len());
            proof {
                assert(out@ =~= svg@);
            }
            out
        },
    }
}

} // verus!
