//! Request paths: the segments of a path, and the values that a segment
//! stands for once its percent escapes are decoded.
use vstd::prelude::*;
use vstd::utf8::{valid_utf8, decode_utf8};

verus! {

/// The first position at or after `pos` that holds a `/`, or the length of
/// the path when there is none.
pub open spec fn next_slash(path: Seq<u8>, pos: int) -> int
    decreases path.len() - pos,
{
    if pos >= path.len() {
        path.len() as int
    } else if path[pos] == 47 {
        pos
    } else {
        next_slash(path, pos + 1)
    }
}

/// `next_slash` lies between `pos` and the end of the path, and no `/` comes before it.
pub proof fn lemma_next_slash(path: Seq<u8>, pos: int)
    requires
        0 <= pos <= path.len(),
    ensures
        pos <= next_slash(path, pos) <= path.len(),
        next_slash(path, pos) < path.len() ==> path[next_slash(path, pos)] == 47,
        forall|k: int| pos <= k < next_slash(path, pos) ==> path[k] != 47,
    decreases path.len() - pos,
{
    if pos < path.len() && path[pos] != 47 {
        lemma_next_slash(path, pos + 1);
    }
}

/// The segments of `path` that start at byte `pos`: each runs up to the next
/// `/`, and the path ends when the position reaches its end.
pub open spec fn segments_from(path: Seq<u8>, pos: int) -> Seq<Seq<u8>>
    decreases path.len() - pos,
{
    if pos < 0 || pos >= path.len() {
        seq![]
    } else {
        let end = next_slash(path, pos);
        proof {
            lemma_next_slash(path, pos);
        }
        if end < path.len() {
            seq![path.subrange(pos, end)] + segments_from(path, end + 1)
        } else {
            seq![path.subrange(pos, path.len() as int)]
        }
    }
}

/// The segments of a request path, read after its leading `/`: `/a/b` has the
/// segments `a` and `b`, `/` has none, `/a/` has the single segment `a` and
/// `/a//b` has `a`, an empty segment and `b`.
pub open spec fn path_segments(path: Seq<u8>) -> Seq<Seq<u8>> {
    segments_from(path, 1)
}

/// The byte sequences held by a vector of segments.
pub open spec fn segment_views(segs: Seq<Vec<u8>>) -> Seq<Seq<u8>> {
    segs.map_values(|s: Vec<u8>| s@)
}

/// The bytes `path[from..to]` in a vector of their own.
fn copy_range(path: &[u8], from: usize, to: usize) -> (r: Vec<u8>)
    requires
        from <= to <= path@.len(),
    ensures
        r@ == path@.subrange(from as int, to as int),
{
    let mut r: Vec<u8> = Vec::new();
    let mut i = from;
    while i < to
        invariant
            from <= i <= to <= path@.len(),
            r@ == path@.subrange(from as int, i as int),
        decreases to - i,
    {
        r.push(path[i]);
        i = i + 1;
        assert(r@ =~= path@.subrange(from as int, i as int));
    }
    r
}

/// Splits a request path into its segments.
pub fn split_path(path: &[u8]) -> (segs: Vec<Vec<u8>>)
    ensures
        segment_views(segs@) == path_segments(path@),
{
    let len = path.len();
    let mut segs: Vec<Vec<u8>> = Vec::new();
    let mut pos: usize = 1;
    proof {
        assert(segment_views(segs@) + segments_from(path@, pos as int) =~= path_segments(path@));
    }
    while pos < len
        invariant
            len == path@.len(),
            1 <= pos,
            segment_views(segs@) + segments_from(path@, pos as int) == path_segments(path@),
        decreases len - pos,
    {
        let mut end = pos;
        proof {
            lemma_next_slash(path@, pos as int);
        }
        while end < len && path[end] != 47u8
            invariant
                len == path@.len(),
                pos <= end <= len,
                next_slash(path@, pos as int) == next_slash(path@, end as int),
            decreases len - end,
        {
            end = end + 1;
        }
        proof {
            lemma_next_slash(path@, pos as int);
        }
        let seg = copy_range(path, pos, end);
        let ghost before = segs@;
        let ghost old_pos = pos as int;
        segs.push(seg);
        proof {
            assert(segment_views(segs@) =~= segment_views(before).push(seg@));
        }
        if end < len {
            pos = end + 1;
            proof {
                assert(segments_from(path@, old_pos) == seq![seg@] + segments_from(path@, pos as int));
                assert(segment_views(segs@) + segments_from(path@, pos as int) =~= segment_views(
                    before,
                ) + segments_from(path@, old_pos));
            }
        } else {
            pos = end;
            proof {
                assert(segments_from(path@, old_pos) == seq![seg@]);
                assert(segment_views(segs@) + segments_from(path@, pos as int) =~= segment_views(
                    before,
                ) + segments_from(path@, old_pos));
            }
        }
    }
    segs
}

/// Where no `/` stands from `pos` up to `end`, and `end` is a `/` or the end
/// of the path, the next `/` from `pos` is at `end`.
pub proof fn lemma_next_slash_is(path: Seq<u8>, pos: int, end: int)
    requires
        0 <= pos <= end <= path.len(),
        end < path.len() ==> path[end] == 47,
        forall|k: int| pos <= k < end ==> path[k] != 47,
    ensures
        next_slash(path, pos) == end,
    decreases end - pos,
{
    if pos < end {
        lemma_next_slash_is(path, pos + 1, end);
    }
}

/// The segment that starts at `pos` and runs up to the `/` at `end`, then the
/// segments after that `/`.
pub proof fn lemma_segments_step(path: Seq<u8>, pos: int, end: int)
    requires
        0 <= pos <= end < path.len(),
        path[end] == 47,
        forall|k: int| pos <= k < end ==> path[k] != 47,
    ensures
        segments_from(path, pos) == seq![path.subrange(pos, end)] + segments_from(path, end + 1),
{
    lemma_next_slash_is(path, pos, end);
}

/// Where no `/` follows `pos`, the rest of the path is the last segment.
pub proof fn lemma_segments_last(path: Seq<u8>, pos: int)
    requires
        0 <= pos < path.len(),
        forall|k: int| pos <= k < path.len() ==> path[k] != 47,
    ensures
        segments_from(path, pos) == seq![path.subrange(pos, path.len() as int)],
{
    lemma_next_slash_is(path, pos, path.len() as int);
}

/// Whether a segment is the given literal, character for character. The
/// literals of the route tables are plain ASCII words, whose percent-encoded
/// form is the word itself.
pub open spec fn segment_is(seg: Seq<u8>, lit: Seq<char>) -> bool {
    &&& seg.len() == lit.len()
    &&& forall|i: int| 0 <= i < seg.len() ==> seg[i] as u32 == #[trigger] lit[i] as u32
}

/// Compares a segment with a literal.
pub fn segment_matches(seg: &Vec<u8>, lit: &str) -> (r: bool)
    ensures
        r == segment_is(seg@, lit@),
{
    let n = lit.unicode_len();
    if seg.len() != n {
        return false;
    }
    let mut i: usize = 0;
    while i < n
        invariant
            n == lit@.len(),
            seg@.len() == n,
            i <= n,
            forall|k: int| 0 <= k < i ==> seg@[k] as u32 == #[trigger] lit@[k] as u32,
        decreases n - i,
    {
        let c = lit.get_char(i);
        if seg[i] as u32 != c as u32 {
            return false;
        }
        i = i + 1;
    }
    true
}

/// The value of a hexadecimal digit, for `0-9`, `a-f` and `A-F`.
pub open spec fn hex_value(b: u8) -> Option<u8> {
    if 48 <= b <= 57 {
        Some((b - 48) as u8)
    } else if 97 <= b <= 102 {
        Some((b - 87) as u8)
    } else if 65 <= b <= 70 {
        Some((b - 55) as u8)
    } else {
        None
    }
}

/// Bytes with their percent escapes decoded: a `%` followed by two
/// hexadecimal digits stands for the byte they spell; any other byte,
/// a `%` without two digits after it included, stands for itself.
pub open spec fn percent_decoded(s: Seq<u8>) -> Seq<u8>
    decreases s.len(),
{
    if s.len() == 0 {
        seq![]
    } else if s[0] == 37 && s.len() >= 3 && hex_value(s[1]) is Some && hex_value(s[2]) is Some {
        seq![(hex_value(s[1])->0 * 16 + hex_value(s[2])->0) as u8] + percent_decoded(s.skip(3))
    } else {
        seq![s[0]] + percent_decoded(s.skip(1))
    }
}

/// Collects what `percent_encoding::percent_decode` yields for `seg`. Its
/// source replaces `%` and two hexadecimal digits by the byte they spell and
/// leaves every other byte as it is, which is `percent_decoded`.
#[verifier::external_body]
fn decode_percent(seg: &[u8]) -> (r: Vec<u8>)
    ensures
        r@ == percent_decoded(seg@),
{
    percent_encoding::percent_decode(seg).collect()
}

/// Reads bytes as UTF-8 text with `String::from_utf8`, which succeeds exactly
/// on valid UTF-8 and then holds the characters that the bytes encode.
#[verifier::external_body]
fn utf8_text(bytes: Vec<u8>) -> (r: Option<String>)
    ensures
        match r {
            Some(s) => valid_utf8(bytes@) && s@ == decode_utf8(bytes@),
            None => !valid_utf8(bytes@),
        },
{
    String::from_utf8(bytes).ok()
}

/// The text a segment stands for: its decoded bytes read as UTF-8, where they are valid UTF-8.
pub open spec fn segment_text(seg: Seq<u8>) -> Option<Seq<char>> {
    let bytes = percent_decoded(seg);
    if valid_utf8(bytes) {
        Some(decode_utf8(bytes))
    } else {
        None
    }
}

/// Decodes a segment into the text it stands for.
pub fn decode_text_segment(seg: &[u8]) -> (r: Option<String>)
    ensures
        match r {
            Some(s) => segment_text(seg@) == Some(s@),
            None => segment_text(seg@) is None,
        },
        (forall|i: int| 0 <= i < seg@.len() ==> #[trigger] seg@[i] != 37) ==> (match r {
            Some(s) => valid_utf8(seg@) && s@ == decode_utf8(seg@),
            None => !valid_utf8(seg@),
        }),
{
    proof {
        if forall|i: int| 0 <= i < seg@.len() ==> #[trigger] seg@[i] != 37 {
            lemma_percent_decoded_plain(seg@);
        }
    }
    let bytes = decode_percent(seg);
    utf8_text(bytes)
}

/// A segment without `%` stands for its own text: every byte, `+` included,
/// stands for itself, so it reads as its own UTF-8 characters where it is
/// valid UTF-8, and as nothing where it is not.
pub proof fn law_plain_segment_is_its_own_text(seg: Seq<u8>)
    requires
        forall|i: int| 0 <= i < seg.len() ==> #[trigger] seg[i] != 37,
    ensures
        percent_decoded(seg) == seg,
        valid_utf8(seg) ==> segment_text(seg) == Some(decode_utf8(seg)),
        !valid_utf8(seg) ==> segment_text(seg) is None,
{
    lemma_percent_decoded_plain(seg);
}

/// An ASCII decimal digit.
pub open spec fn is_digit(b: u8) -> bool {
    48 <= b <= 57
}

/// Every byte is an ASCII decimal digit.
pub open spec fn all_digits(s: Seq<u8>) -> bool {
    forall|i: int| 0 <= i < s.len() ==> is_digit(#[trigger] s[i])
}

/// The number that a string of decimal digits spells.
pub open spec fn digits_value(s: Seq<u8>) -> nat
    decreases s.len(),
{
    if s.len() == 0 {
        0
    } else {
        digits_value(s.drop_last()) * 10 + (s.last() - 48) as nat
    }
}

/// The digits of a decimal literal: what follows its sign, where it has one.
pub open spec fn literal_digits(s: Seq<u8>) -> Seq<u8> {
    if s.len() > 0 && (s[0] == 43 || s[0] == 45) {
        s.skip(1)
    } else {
        s
    }
}

/// The `i32` a decimal literal stands for: an optional `+` or `-`, then at
/// least one digit and nothing else, and a value within the range of `i32`.
/// This is the literal syntax of `i32::from_str`. A byte string that is not
/// valid UTF-8 holds a byte outside ASCII and so is no literal either.
pub open spec fn decimal_i32(s: Seq<u8>) -> Option<i32> {
    let digits = literal_digits(s);
    if digits.len() == 0 || !all_digits(digits) {
        None
    } else {
        let v: int = if s[0] == 45 {
            -(digits_value(digits) as int)
        } else {
            digits_value(digits) as int
        };
        if i32::MIN <= v <= i32::MAX {
            Some(v as i32)
        } else {
            None
        }
    }
}

/// The `i32` a path segment stands for, once its escapes are decoded.
pub open spec fn segment_i32(seg: Seq<u8>) -> Option<i32> {
    decimal_i32(percent_decoded(seg))
}

/// Extending a string of digits never lowers the number it spells.
pub proof fn lemma_digits_value_prefix(s: Seq<u8>, j: int)
    requires
        0 <= j <= s.len(),
        all_digits(s),
    ensures
        digits_value(s.take(j)) <= digits_value(s),
    decreases s.len(),
{
    if j < s.len() {
        let d = s.drop_last();
        assert(all_digits(d)) by {
            assert forall|i: int| 0 <= i < d.len() implies is_digit(#[trigger] d[i]) by {
                assert(d[i] == s[i]);
            }
        }
        lemma_digits_value_prefix(d, j);
        assert(d.take(j) =~= s.take(j));
        assert(is_digit(s[s.len() - 1]));
    } else {
        assert(s.take(j) =~= s);
    }
}

/// Parses a decimal literal into an `i32`.
pub fn parse_i32(s: &[u8]) -> (r: Option<i32>)
    ensures
        r == decimal_i32(s@),
{
    let len = s.len();
    if len == 0 {
        return None;
    }
    let start: usize = if s[0] == 43u8 || s[0] == 45u8 {
        1
    } else {
        0
    };
    let ghost digits = literal_digits(s@);
    assert(digits =~= s@.subrange(start as int, len as int));
    if start == len {
        return None;
    }
    let mut acc: i64 = 0;
    let mut i = start;
    while i < len
        invariant
            len == s@.len(),
            start <= i <= len,
            digits == s@.subrange(start as int, len as int),
            digits == literal_digits(s@),
            all_digits(s@.subrange(start as int, i as int)),
            acc == digits_value(s@.subrange(start as int, i as int)),
            acc <= 2147483648,
        decreases len - i,
    {
        let b = s[i];
        if b < 48u8 || b > 57u8 {
            assert(digits[i - start] == b);
            assert(!is_digit(digits[i - start]));
            assert(!all_digits(digits));
            return None;
        }
        let ghost prev = s@.subrange(start as int, i as int);
        let ghost next = s@.subrange(start as int, i + 1);
        assert(next.drop_last() =~= prev);
        assert(all_digits(next)) by {
            assert forall|k: int| 0 <= k < next.len() implies is_digit(#[trigger] next[k]) by {
                if k < prev.len() {
                    assert(next[k] == prev[k]);
                }
            }
        }
        acc = acc * 10 + (b - 48u8) as i64;
        i = i + 1;
        assert(acc == digits_value(next));
        if acc > 2147483648 {
            proof {
                if all_digits(digits) {
                    lemma_digits_value_prefix(digits, i - start);
                    assert(digits.take(i - start) =~= next);
                    assert(digits_value(digits) > 2147483648);
                }
            }
            return None;
        }
    }
    assert(digits =~= s@.subrange(start as int, i as int));
    if s[0] == 45u8 {
        Some((0 - acc) as i32)
    } else if acc <= 2147483647 {
        Some(acc as i32)
    } else {
        None
    }
}

/// The decimal digits of a natural number, without leading zeros.
pub open spec fn decimal_digits(n: nat) -> Seq<u8>
    decreases n,
{
    if n < 10 {
        seq![(48 + n) as u8]
    } else {
        decimal_digits(n / 10).push((48 + n % 10) as u8)
    }
}

/// The decimal literal of an `i32`: its digits, after a `-` where it is negative.
pub open spec fn decimal_text(v: i32) -> Seq<u8> {
    if v < 0 {
        seq![45u8] + decimal_digits((-v) as nat)
    } else {
        decimal_digits(v as nat)
    }
}

/// The digits of a number are digits, at least one, and spell the number.
pub proof fn lemma_decimal_digits(n: nat)
    ensures
        decimal_digits(n).len() > 0,
        all_digits(decimal_digits(n)),
        digits_value(decimal_digits(n)) == n,
    decreases n,
{
    if n >= 10 {
        lemma_decimal_digits(n / 10);
        let d = decimal_digits(n / 10);
        let full = decimal_digits(n);
        assert(full == d.push((48 + n % 10) as u8));
        assert(full.drop_last() =~= d);
        assert(full.last() == (48 + n % 10) as u8);
        assert(n == 10 * (n / 10) + n % 10) by {
            vstd::arithmetic::div_mod::lemma_fundamental_div_mod(n as int, 10);
        }
        assert(digits_value(full) == digits_value(d) * 10 + (n % 10));
        assert(digits_value(d) == n / 10);
        assert(digits_value(full) == n);
        assert(all_digits(full)) by {
            assert forall|i: int| 0 <= i < full.len() implies is_digit(#[trigger] full[i]) by {
                if i < d.len() {
                    assert(full[i] == d[i]);
                }
            }
        }
    } else {
        let full = decimal_digits(n);
        assert(full.drop_last() =~= Seq::<u8>::empty());
        assert(full.last() == (48 + n) as u8);
        assert(digits_value(full) == digits_value(full.drop_last()) * 10 + (full.last() - 48) as nat);
        assert(digits_value(full) == n);
    }
}

/// Bytes without a `%` decode to themselves.
pub proof fn lemma_percent_decoded_plain(s: Seq<u8>)
    requires
        forall|i: int| 0 <= i < s.len() ==> #[trigger] s[i] != 37,
    ensures
        percent_decoded(s) == s,
    decreases s.len(),
{
    if s.len() > 0 {
        let rest = s.skip(1);
        assert forall|i: int| 0 <= i < rest.len() implies #[trigger] rest[i] != 37 by {
            assert(rest[i] == s[i + 1]);
        }
        lemma_percent_decoded_plain(rest);
        assert(seq![s[0]] + rest =~= s);
    }
}

/// The decimal literal of a number holds neither `%` nor `/`.
pub proof fn lemma_decimal_text_plain(v: i32)
    ensures
        forall|i: int| 0 <= i < decimal_text(v).len() ==> #[trigger] decimal_text(v)[i] != 37
            && decimal_text(v)[i] != 47,
{
    let m: nat = if v < 0 { (-v) as nat } else { v as nat };
    lemma_decimal_digits(m);
    let d = decimal_digits(m);
    assert forall|i: int| 0 <= i < decimal_text(v).len() implies #[trigger] decimal_text(v)[i] != 37
        && decimal_text(v)[i] != 47 by {
        if v < 0 {
            if i > 0 {
                assert(decimal_text(v)[i] == d[i - 1]);
                assert(is_digit(d[i - 1]));
            }
        } else {
            assert(is_digit(d[i]));
        }
    }
}

/// Every `i32` is read back from its decimal literal, also as a path segment.
pub proof fn law_decimal_round_trip(v: i32)
    ensures
        decimal_i32(decimal_text(v)) == Some(v),
        segment_i32(decimal_text(v)) == Some(v),
{
    let t = decimal_text(v);
    if v < 0 {
        let m: nat = (-v) as nat;
        lemma_decimal_digits(m);
        assert(literal_digits(t) =~= decimal_digits(m));
    } else {
        lemma_decimal_digits(v as nat);
        assert(is_digit(t[0]));
        assert(literal_digits(t) == t);
    }
    lemma_decimal_text_plain(v);
    lemma_percent_decoded_plain(t);
}

/// Reads a path segment as an `i32`: decodes its escapes, then parses the literal.
pub fn decode_i32_segment(seg: &[u8]) -> (r: Option<i32>)
    ensures
        r == segment_i32(seg@),
{
    let bytes = decode_percent(seg);
    parse_i32(bytes.as_slice())
}

} // verus!
