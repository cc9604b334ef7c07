use vstd::prelude::*;
use vstd::utf8::encode_utf8;

verus! {

/// Appends `src` to `out`.
pub fn push_bytes(out: &mut Vec<u8>, src: &[u8])
    ensures
        final(out)@ == old(out)@ + src@,
{
    let ghost start = out@;
    let mut i: usize = 0;
    while i < src.len()
        invariant
            i <= src@.len(),
            out@ == start + src@.subrange(0, i as int),
        decreases src@.len() - i,
    {
        out.push(src[i]);
        i = i + 1;
        assert(src@.subrange(0, i as int) == src@.subrange(0, i - 1) + seq![src@[i - 1]]);
    }
    assert(src@.subrange(0, src@.len() as int) == src@);
}

/// The lowercase hexadecimal digit of a value below 16.
pub open spec fn lower_hex_digit(v: int) -> u8 {
    if v < 10 { (48 + v) as u8 } else { (87 + v) as u8 }
}

/// The uppercase hexadecimal digit of a value below 16.
pub open spec fn upper_hex_digit(v: int) -> u8 {
    if v < 10 { (48 + v) as u8 } else { (55 + v) as u8 }
}

/// How one byte of a UTF-8 string is written inside a JSON string literal.
pub open spec fn json_escape_byte(b: u8) -> Seq<u8> {
    if b == 34 {
        seq![92u8, 34u8]
    } else if b == 92 {
        seq![92u8, 92u8]
    } else if b == 8 {
        seq![92u8, 98u8]
    } else if b == 9 {
        seq![92u8, 116u8]
    } else if b == 10 {
        seq![92u8, 110u8]
    } else if b == 12 {
        seq![92u8, 102u8]
    } else if b == 13 {
        seq![92u8, 114u8]
    } else if b < 32 {
        seq![92u8, 117u8, 48u8, 48u8, lower_hex_digit((b / 16) as int), lower_hex_digit((b % 16) as int)]
    } else {
        seq![b]
    }
}

/// The escaped contents of a JSON string literal.
pub open spec fn json_escape(b: Seq<u8>) -> Seq<u8>
    decreases b.len(),
{
    if b.len() == 0 {
        Seq::empty()
    } else {
        json_escape(b.drop_last()) + json_escape_byte(b.last())
    }
}

/// A JSON string literal holding the UTF-8 text `b`, quotes included.
pub open spec fn json_string(b: Seq<u8>) -> Seq<u8> {
    seq![34u8] + json_escape(b) + seq![34u8]
}

/// The decimal digits of `n`, as ASCII bytes.
pub open spec fn decimal(n: nat) -> Seq<u8>
    decreases n,
{
    if n < 10 {
        seq![(48 + n) as u8]
    } else {
        decimal(n / 10) + seq![(48 + n % 10) as u8]
    }
}

/// `true` or `false`, as JSON bytes.
pub open spec fn json_bool(b: bool) -> Seq<u8> {
    if b { seq![116u8, 114u8, 117u8, 101u8] } else { seq![102u8, 97u8, 108u8, 115u8, 101u8] }
}

/// Uppercase hexadecimal text of a byte string, two digits per byte.
pub open spec fn upper_hex(b: Seq<u8>) -> Seq<u8>
    decreases b.len(),
{
    if b.len() == 0 {
        Seq::empty()
    } else {
        upper_hex(b.drop_last()) + seq![upper_hex_digit((b.last() / 16) as int), upper_hex_digit((b.last() % 16) as int)]
    }
}

fn lower_hex_digit_exec(v: u8) -> (r: u8)
    requires
        v < 16,
    ensures
        r == lower_hex_digit(v as int),
{
    if v < 10 { 48 + v } else { 87 + v }
}

fn upper_hex_digit_exec(v: u8) -> (r: u8)
    requires
        v < 16,
    ensures
        r == upper_hex_digit(v as int),
{
    if v < 10 { 48 + v } else { 55 + v }
}

/// Appends the JSON escape of one byte.
fn push_escaped_byte(out: &mut Vec<u8>, b: u8)
    ensures
        final(out)@ == old(out)@ + json_escape_byte(b),
{
    if b == 34 {
        out.push(92);
        out.push(34);
    } else if b == 92 {
        out.push(92);
        out.push(92);
    } else if b == 8 {
        out.push(92);
        out.push(98);
    } else if b == 9 {
        out.push(92);
        out.push(116);
    } else if b == 10 {
        out.push(92);
        out.push(110);
    } else if b == 12 {
        out.push(92);
        out.push(102);
    } else if b == 13 {
        out.push(92);
        out.push(114);
    } else if b < 32 {
        out.push(92);
        out.push(117);
        out.push(48);
        out.push(48);
        out.push(lower_hex_digit_exec(b / 16));
        out.push(lower_hex_digit_exec(b % 16));
    } else {
        out.push(b);
    }
}

/// An ASCII hexadecimal digit, either case.
pub open spec fn is_hex_digit(b: u8) -> bool {
    (48 <= b <= 57) || (65 <= b <= 70) || (97 <= b <= 102)
}

/// The value of an ASCII hexadecimal digit.
pub open spec fn hex_value(b: u8) -> int {
    if b <= 57 {
        b - 48
    } else if b <= 70 {
        b - 55
    } else {
        b - 87
    }
}

/// Bytes read from consecutive pairs of hexadecimal digits, high digit first.
pub open spec fn hex_pairs(b: Seq<u8>) -> Seq<u8>
    decreases b.len(),
{
    if b.len() < 2 {
        Seq::empty()
    } else {
        hex_pairs(b.subrange(0, b.len() - 2)) + seq![
            (hex_value(b[b.len() - 2]) * 16 + hex_value(b[b.len() - 1])) as u8,
        ]
    }
}

/// Strict hexadecimal decoding: an even number of digits and nothing else.
pub open spec fn hex_decode(b: Seq<u8>) -> Option<Seq<u8>> {
    if b.len() % 2 == 0 && (forall|i: int| 0 <= i < b.len() ==> is_hex_digit(#[trigger] b[i])) {
        Some(hex_pairs(b))
    } else {
        None
    }
}

/// The whitespace bytes that lenient hexadecimal decoding skips.
pub open spec fn is_hex_space(b: u8) -> bool {
    b == 32 || b == 13 || b == 10 || b == 9
}

/// The bytes of `b` that are not whitespace.
pub open spec fn without_hex_spaces(b: Seq<u8>) -> Seq<u8> {
    b.filter(|x: u8| !is_hex_space(x))
}

/// Lenient hexadecimal decoding: whitespace is skipped, every other byte must be
/// a digit, and the digits must pair up.
pub open spec fn hex_decode_lenient(b: Seq<u8>) -> Option<Seq<u8>> {
    let digits = without_hex_spaces(b);
    if digits.len() % 2 == 0 && (forall|i: int|
        0 <= i < b.len() ==> is_hex_space(#[trigger] b[i]) || is_hex_digit(b[i])) {
        Some(hex_pairs(digits))
    } else {
        None
    }
}

/// The character of a six-bit value in the standard base64 alphabet.
pub open spec fn base64_char(v: int) -> char {
    if v < 26 {
        (65 + v) as char
    } else if v < 52 {
        (71 + v) as char
    } else if v < 62 {
        (v - 4) as char
    } else if v == 62 {
        '+'
    } else {
        '/'
    }
}

/// Standard base64 with `=` padding.
pub open spec fn base64_encode(b: Seq<u8>) -> Seq<char>
    decreases b.len(),
{
    if b.len() == 0 {
        Seq::empty()
    } else if b.len() == 1 {
        seq![base64_char((b[0] / 4) as int), base64_char((b[0] % 4) * 16), '=', '=']
    } else if b.len() == 2 {
        seq![
            base64_char((b[0] / 4) as int),
            base64_char((b[0] % 4) * 16 + b[1] / 16),
            base64_char((b[1] % 16) * 4),
            '=',
        ]
    } else {
        seq![
            base64_char((b[0] / 4) as int),
            base64_char((b[0] % 4) * 16 + b[1] / 16),
            base64_char((b[1] % 16) * 4 + b[2] / 64),
            base64_char((b[2] % 64) as int),
        ] + base64_encode(b.subrange(3, b.len() as int))
    }
}

/// The pieces of `b` between single spaces, as `str::split(" ")` yields them: `n`
/// spaces make `n + 1` pieces, some of which may be empty.
pub open spec fn split_spaces(b: Seq<u8>) -> Seq<Seq<u8>>
    decreases b.len(),
{
    if b.len() == 0 {
        seq![Seq::<u8>::empty()]
    } else {
        let rest = split_spaces(b.drop_last());
        if b.last() == 32 {
            rest.push(Seq::<u8>::empty())
        } else {
            rest.update(rest.len() - 1, rest.last().push(b.last()))
        }
    }
}

/// How many of the pieces equal `key`.
pub open spec fn count_equal(pieces: Seq<Seq<u8>>, key: Seq<u8>) -> nat
    decreases pieces.len(),
{
    if pieces.len() == 0 {
        0
    } else {
        count_equal(pieces.drop_last(), key) + if pieces.last() == key {
            1nat
        } else {
            0nat
        }
    }
}

/// A copy of `text[start..end]`.
pub fn copy_range(text: &[u8], start: usize, end: usize) -> (r: Vec<u8>)
    requires
        start <= end <= text@.len(),
    ensures
        r@ == text@.subrange(start as int, end as int),
{
    let mut r: Vec<u8> = Vec::new();
    let mut i: usize = start;
    while i < end
        invariant
            start <= i <= end <= text@.len(),
            r@ == text@.subrange(start as int, i as int),
        decreases end - i,
    {
        r.push(text[i]);
        i = i + 1;
        assert(r@ =~= text@.subrange(start as int, i as int));
    }
    r
}

/// Whether `text[start..end]` equals `key`.
pub(crate) fn range_equals(text: &[u8], start: usize, end: usize, key: &[u8]) -> (r: bool)
    requires
        start <= end <= text@.len(),
    ensures
        r == (text@.subrange(start as int, end as int) == key@),
{
    if end - start != key.len() {
        return false;
    }
    let mut i: usize = 0;
    while i < key.len()
        invariant
            end - start == key@.len(),
            start <= end <= text@.len(),
            i <= key@.len(),
            forall|j: int| 0 <= j < i ==> text@[start + j] == key@[j],
        decreases key@.len() - i,
    {
        if text[start + i] != key[i] {
            assert(text@.subrange(start as int, end as int)[i as int] != key@[i as int]);
            return false;
        }
        i = i + 1;
    }
    assert(text@.subrange(start as int, end as int) =~= key@);
    true
}

/// Whether `needle` occurs in `haystack`.
pub open spec fn has_infix(haystack: Seq<u8>, needle: Seq<u8>) -> bool {
    exists|i: int|
        0 <= i && i + needle.len() <= haystack.len() && #[trigger] haystack.subrange(i, i + needle.len())
            == needle
}

/// Whether `needle` occurs in `haystack`.
pub fn contains_bytes(haystack: &[u8], needle: &[u8]) -> (r: bool)
    ensures
        r == has_infix(haystack@, needle@),
{
    let hl = haystack.len();
    let nl = needle.len();
    if nl > hl {
        return false;
    }
    let last = hl - nl;
    let mut i: usize = 0;
    loop
        invariant
            hl == haystack@.len(),
            nl == needle@.len(),
            last == hl - nl,
            i <= last,
            forall|j: int| 0 <= j < i ==> #[trigger] haystack@.subrange(j, j + needle@.len()) != needle@,
        decreases last - i,
    {
        if range_equals(haystack, i, i + nl, needle) {
            return true;
        }
        if i == last {
            return false;
        }
        i = i + 1;
    }
}

/// Splits `text` at single spaces and returns how many pieces there are and how
/// many of them equal `key`.
pub fn split_count(text: &[u8], key: &[u8]) -> (r: (u128, u128))
    ensures
        r.0 == split_spaces(text@).len(),
        r.1 == count_equal(split_spaces(text@), key@),
        r.1 <= r.0 <= text@.len() + 1,
{
    let ghost mut done: Seq<Seq<u8>> = Seq::empty();
    let mut start: usize = 0;
    let mut pieces: u128 = 0;
    let mut matches: u128 = 0;
    let mut i: usize = 0;
    assert(text@.subrange(0, 0) =~= Seq::<u8>::empty());
    assert(split_spaces(Seq::<u8>::empty()) == seq![Seq::<u8>::empty()]);
    assert(done.push(text@.subrange(0, 0)) =~= seq![Seq::<u8>::empty()]);
    while i < text.len()
        invariant
            start <= i <= text@.len(),
            split_spaces(text@.subrange(0, i as int)) == done.push(text@.subrange(start as int, i as int)),
            pieces == done.len(),
            matches == count_equal(done, key@),
            matches <= pieces,
            done.len() <= i,
        decreases text@.len() - i,
    {
        let ghost prefix = text@.subrange(0, i as int);
        let ghost piece = text@.subrange(start as int, i as int);
        assert(text@.subrange(0, i + 1).drop_last() == prefix);
        assert(text@.subrange(0, i + 1).last() == text@[i as int]);
        if text[i] == 32 {
            let eq = range_equals(text, start, i, key);
            let ghost old_done = done;
            proof {
                done = done.push(piece);
                assert(done.drop_last() == old_done);
                assert(done.last() == piece);
            }
            pieces = pieces + 1;
            if eq {
                matches = matches + 1;
            }
            start = i + 1;
            i = i + 1;
            assert(text@.subrange(start as int, i as int) =~= Seq::<u8>::empty());
            assert(split_spaces(text@.subrange(0, i as int)) =~= old_done.push(piece).push(Seq::<u8>::empty()));
        } else {
            i = i + 1;
            assert(text@.subrange(start as int, i as int) =~= piece.push(text@[i - 1]));
            assert(split_spaces(text@.subrange(0, i as int)) =~= done.push(piece.push(text@[i - 1])));
        }
    }
    assert(text@.subrange(0, text@.len() as int) == text@);
    let eq = range_equals(text, start, text.len(), key);
    let ghost old_done = done;
    proof {
        done = done.push(text@.subrange(start as int, text@.len() as int));
        assert(done.drop_last() == old_done);
    }
    pieces = pieces + 1;
    if eq {
        matches = matches + 1;
    }
    (pieces, matches)
}

/// Appends `s` as a JSON string literal, escaped as serde_json escapes it.
pub fn push_json_string(out: &mut Vec<u8>, s: &str)
    ensures
        final(out)@ == old(out)@ + json_string(encode_utf8(s@)),
{
    let bytes = s.as_bytes();
    let ghost start = out@;
    out.push(34);
    let mut i: usize = 0;
    while i < bytes.len()
        invariant
            i <= bytes@.len(),
            bytes@ == encode_utf8(s@),
            out@ == start + seq![34u8] + json_escape(bytes@.subrange(0, i as int)),
        decreases bytes@.len() - i,
    {
        push_escaped_byte(out, bytes[i]);
        i = i + 1;
        assert(bytes@.subrange(0, i as int).drop_last() == bytes@.subrange(0, i - 1));
    }
    out.push(34);
    assert(bytes@.subrange(0, bytes@.len() as int) == bytes@);
}

/// Appends the decimal digits of `n`.
pub fn push_decimal(out: &mut Vec<u8>, n: u64)
    ensures
        final(out)@ == old(out)@ + decimal(n as nat),
    decreases n,
{
    if n < 10 {
        out.push(48 + n as u8);
    } else {
        push_decimal(out, n / 10);
        out.push(48 + (n % 10) as u8);
    }
}

/// Appends `true` or `false`.
pub fn push_bool(out: &mut Vec<u8>, b: bool)
    ensures
        final(out)@ == old(out)@ + json_bool(b),
{
    if b {
        out.push(116);
        out.push(114);
        out.push(117);
        out.push(101);
    } else {
        out.push(102);
        out.push(97);
        out.push(108);
        out.push(115);
        out.push(101);
    }
}

/// Uppercase hexadecimal text of `data`, two digits per byte.
pub fn to_upper_hex(data: &[u8]) -> (r: Vec<u8>)
    ensures
        r@ == upper_hex(data@),
{
    let mut r: Vec<u8> = Vec::new();
    let mut i: usize = 0;
    while i < data.len()
        invariant
            i <= data@.len(),
            r@ == upper_hex(data@.subrange(0, i as int)),
        decreases data@.len() - i,
    {
        let b = data[i];
        r.push(upper_hex_digit_exec(b / 16));
        r.push(upper_hex_digit_exec(b % 16));
        i = i + 1;
        assert(data@.subrange(0, i as int).drop_last() == data@.subrange(0, i - 1));
    }
    assert(data@.subrange(0, data@.len() as int) == data@);
    r
}

} // verus!
