//! Text encodings used by the server: lowercase hexadecimal, the `#rrggbb`
//! colour strings given to new players, hyphenated UUID text and decimal
//! integers.

use vstd::prelude::*;

verus! {

/// The lowercase hexadecimal digit for `n` (`0 <= n < 16`).
pub open spec fn hex_char(n: int) -> char {
    if n == 0 { '0' } else if n == 1 { '1' } else if n == 2 { '2' } else if n == 3 { '3' }
    else if n == 4 { '4' } else if n == 5 { '5' } else if n == 6 { '6' } else if n == 7 { '7' }
    else if n == 8 { '8' } else if n == 9 { '9' } else if n == 10 { 'a' } else if n == 11 { 'b' }
    else if n == 12 { 'c' } else if n == 13 { 'd' } else if n == 14 { 'e' } else { 'f' }
}

/// The two lowercase hexadecimal digits of a byte, high nibble first.
pub open spec fn hex_byte(b: u8) -> Seq<char> {
    seq![hex_char(b as int / 16), hex_char(b as int % 16)]
}

/// Lowercase hexadecimal text of a byte sequence, two digits per byte.
pub open spec fn hex_bytes(bs: Seq<u8>) -> Seq<char>
    decreases bs.len(),
{
    if bs.len() == 0 {
        Seq::empty()
    } else {
        hex_bytes(bs.drop_last()) + hex_byte(bs.last())
    }
}

/// A one-character string holding the hexadecimal digit of `n`.
fn hex_digit_str(n: u8) -> (s: &'static str)
    requires
        n < 16,
    ensures
        s@ == seq![hex_char(n as int)],
{
    match n {
        0 => { proof { reveal_strlit("0"); } "0" },
        1 => { proof { reveal_strlit("1"); } "1" },
        2 => { proof { reveal_strlit("2"); } "2" },
        3 => { proof { reveal_strlit("3"); } "3" },
        4 => { proof { reveal_strlit("4"); } "4" },
        5 => { proof { reveal_strlit("5"); } "5" },
        6 => { proof { reveal_strlit("6"); } "6" },
        7 => { proof { reveal_strlit("7"); } "7" },
        8 => { proof { reveal_strlit("8"); } "8" },
        9 => { proof { reveal_strlit("9"); } "9" },
        10 => { proof { reveal_strlit("a"); } "a" },
        11 => { proof { reveal_strlit("b"); } "b" },
        12 => { proof { reveal_strlit("c"); } "c" },
        13 => { proof { reveal_strlit("d"); } "d" },
        14 => { proof { reveal_strlit("e"); } "e" },
        _ => { proof { reveal_strlit("f"); } "f" },
    }
}

/// Appends the two lowercase hexadecimal digits of `b` to `s`.
pub fn push_hex_byte(s: &mut String, b: u8)
    ensures
        final(s)@ == old(s)@ + hex_byte(b),
{
    s.append(hex_digit_str(b / 16));
    s.append(hex_digit_str(b % 16));
}

/// Appends the hexadecimal text of `bytes[lo..hi]` to `s`.
fn push_hex_range(s: &mut String, bytes: &[u8], lo: usize, hi: usize)
    requires
        lo <= hi <= bytes@.len(),
    ensures
        final(s)@ == old(s)@ + hex_bytes(bytes@.subrange(lo as int, hi as int)),
{
    let mut i = lo;
    assert(bytes@.subrange(lo as int, lo as int) =~= Seq::<u8>::empty());
    while i < hi
        invariant
            lo <= i <= hi <= bytes@.len(),
            s@ == old(s)@ + hex_bytes(bytes@.subrange(lo as int, i as int)),
        decreases hi - i,
    {
        push_hex_byte(s, bytes[i]);
        assert(bytes@.subrange(lo as int, i + 1).drop_last() =~= bytes@.subrange(lo as int, i as int));
        i = i + 1;
    }
}

/// The colour text of three bytes: `#` followed by their lowercase hex digits.
pub open spec fn color_text(bytes: Seq<u8>) -> Seq<char> {
    seq!['#'] + hex_bytes(bytes)
}

/// Formats three bytes as a `#rrggbb` colour, two lowercase hex digits per byte.
pub fn color_string(bytes: &[u8; 3]) -> (s: String)
    ensures
        s@ == color_text(bytes@),
{
    proof { reveal_strlit("#"); }
    let mut s = String::from_str("#");
    push_hex_range(&mut s, bytes.as_slice(), 0, 3);
    assert(bytes@.subrange(0, 3) =~= bytes@);
    s
}

/// The hyphenated lowercase text of a 16-byte UUID: 8-4-4-4-12 hex digits.
pub open spec fn uuid_text(b: Seq<u8>) -> Seq<char> {
    hex_bytes(b.subrange(0, 4)) + seq!['-'] + hex_bytes(b.subrange(4, 6)) + seq!['-']
        + hex_bytes(b.subrange(6, 8)) + seq!['-'] + hex_bytes(b.subrange(8, 10)) + seq!['-']
        + hex_bytes(b.subrange(10, 16))
}

/// Formats UUID bytes in the hyphenated lowercase form, e.g.
/// `67e55044-10b1-426f-9247-bb680e5fe0c8`.
pub fn uuid_string(bytes: &[u8; 16]) -> (s: String)
    ensures
        s@ == uuid_text(bytes@),
{
    proof { reveal_strlit("-"); }
    let b = bytes.as_slice();
    let mut s = String::new();
    push_hex_range(&mut s, b, 0, 4);
    s.append("-");
    push_hex_range(&mut s, b, 4, 6);
    s.append("-");
    push_hex_range(&mut s, b, 6, 8);
    s.append("-");
    push_hex_range(&mut s, b, 8, 10);
    s.append("-");
    push_hex_range(&mut s, b, 10, 16);
    s
}

/// Decimal digits of a natural number, most significant first, no leading zeros.
pub open spec fn decimal_digits(n: nat) -> Seq<char>
    decreases n,
{
    if n < 10 {
        seq![hex_char(n as int)]
    } else {
        decimal_digits(n / 10) + seq![hex_char(n as int % 10)]
    }
}

/// Decimal text of an integer, with a leading `-` for negative numbers.
pub open spec fn decimal(n: int) -> Seq<char> {
    if n < 0 {
        seq!['-'] + decimal_digits((-n) as nat)
    } else {
        decimal_digits(n as nat)
    }
}

fn push_decimal_digits(s: &mut String, n: u32)
    ensures
        final(s)@ == old(s)@ + decimal_digits(n as nat),
    decreases n,
{
    if n >= 10 {
        push_decimal_digits(s, n / 10);
    }
    s.append(hex_digit_str((n % 10) as u8));
}

/// The decimal text of an `i32`, as `to_string` writes it.
pub fn i32_decimal(n: i32) -> (s: String)
    ensures
        s@ == decimal(n as int),
{
    let mut s = String::new();
    if n < 0 {
        proof { reveal_strlit("-"); }
        s.append("-");
        let magnitude: u32 = (-(n as i64)) as u32;
        push_decimal_digits(&mut s, magnitude);
    } else {
        push_decimal_digits(&mut s, n as u32);
    }
    s
}

/// Whether `c` is a lowercase hexadecimal digit.
pub open spec fn is_hex_digit(c: char) -> bool {
    (48 <= c as u32 && c as u32 <= 57) || (97 <= c as u32 && c as u32 <= 102)
}

proof fn lemma_hex_char_is_digit(n: int)
    ensures
        is_hex_digit(hex_char(n)),
{
}

/// Hex text has two digits per byte: digit `2k` is the high nibble of byte
/// `k` and digit `2k + 1` its low nibble.
pub proof fn lemma_hex_bytes_layout(bs: Seq<u8>)
    ensures
        hex_bytes(bs).len() == 2 * bs.len(),
        forall|k: int| 0 <= k < bs.len() ==> {
            &&& #[trigger] hex_bytes(bs)[2 * k] == hex_char(bs[k] as int / 16)
            &&& hex_bytes(bs)[2 * k + 1] == hex_char(bs[k] as int % 16)
        },
        forall|i: int| 0 <= i < hex_bytes(bs).len() ==> is_hex_digit(#[trigger] hex_bytes(bs)[i]),
    decreases bs.len(),
{
    if bs.len() > 0 {
        let init = bs.drop_last();
        lemma_hex_bytes_layout(init);
        assert forall|k: int| 0 <= k < bs.len() implies {
            &&& #[trigger] hex_bytes(bs)[2 * k] == hex_char(bs[k] as int / 16)
            &&& hex_bytes(bs)[2 * k + 1] == hex_char(bs[k] as int % 16)
        } by {
            if k < init.len() {
                assert(hex_bytes(init)[2 * k] == hex_char(init[k] as int / 16));
            }
        }
        assert forall|i: int| 0 <= i < hex_bytes(bs).len() implies is_hex_digit(#[trigger] hex_bytes(bs)[i]) by {
            if i < hex_bytes(init).len() {
                assert(is_hex_digit(hex_bytes(init)[i]));
            } else {
                lemma_hex_char_is_digit(bs.last() as int / 16);
                lemma_hex_char_is_digit(bs.last() as int % 16);
            }
        }
    }
}

/// A colour is seven characters: `#` and six lowercase hex digits, the
/// digits of the three bytes in order.
pub proof fn lemma_color_shape(b: Seq<u8>)
    requires
        b.len() == 3,
    ensures
        color_text(b).len() == 7,
        color_text(b)[0] == '#',
        forall|i: int| 1 <= i < 7 ==> is_hex_digit(#[trigger] color_text(b)[i]),
        forall|k: int| 0 <= k < 3 ==> {
            &&& #[trigger] color_text(b)[2 * k + 1] == hex_char(b[k] as int / 16)
            &&& color_text(b)[2 * k + 2] == hex_char(b[k] as int % 16)
        },
{
    lemma_hex_bytes_layout(b);
    assert forall|i: int| 1 <= i < 7 implies is_hex_digit(#[trigger] color_text(b)[i]) by {
        assert(color_text(b)[i] == hex_bytes(b)[i - 1]);
    }
    assert forall|k: int| 0 <= k < 3 implies {
        &&& #[trigger] color_text(b)[2 * k + 1] == hex_char(b[k] as int / 16)
        &&& color_text(b)[2 * k + 2] == hex_char(b[k] as int % 16)
    } by {
        assert(hex_bytes(b)[2 * k] == hex_char(b[k] as int / 16));
    }
}

/// Where the two hex digits of byte `k` of a UUID stand in its hyphenated
/// text: two characters per byte, plus one for each hyphen before it (after
/// bytes 3, 5, 7 and 9).
pub open spec fn uuid_digit_pos(k: int) -> int {
    2 * k + (if k >= 4 { 1int } else { 0 }) + (if k >= 6 { 1int } else { 0 })
        + (if k >= 8 { 1int } else { 0 }) + (if k >= 10 { 1int } else { 0 })
}

/// Hyphenated UUID text is 36 characters: hyphens at 8, 13, 18 and 23 and
/// lowercase hex digits everywhere else, the digits of the bytes in order. For a random (version 4, RFC 4122)
/// UUID, character 14 is `4` and character 19 is one of `8`, `9`, `a`, `b`.
pub proof fn lemma_uuid_shape(b: Seq<u8>)
    requires
        b.len() == 16,
    ensures
        uuid_text(b).len() == 36,
        forall|i: int| 0 <= i < 36 ==> (#[trigger] uuid_text(b)[i] == '-' <==> (i == 8 || i == 13 || i == 18 || i == 23)),
        forall|i: int| 0 <= i < 36 && i != 8 && i != 13 && i != 18 && i != 23
            ==> is_hex_digit(#[trigger] uuid_text(b)[i]),
        b[6] / 16 == 4 ==> uuid_text(b)[14] == '4',
        b[8] / 64 == 2 ==> {
            let c = uuid_text(b)[19];
            c == '8' || c == '9' || c == 'a' || c == 'b'
        },
        forall|k: int| 0 <= k < 16 ==> {
            &&& #[trigger] uuid_text(b)[uuid_digit_pos(k)] == hex_char(b[k] as int / 16)
            &&& uuid_text(b)[uuid_digit_pos(k) + 1] == hex_char(b[k] as int % 16)
        },
{
    let g0 = b.subrange(0, 4);
    let g1 = b.subrange(4, 6);
    let g2 = b.subrange(6, 8);
    let g3 = b.subrange(8, 10);
    let g4 = b.subrange(10, 16);
    lemma_hex_bytes_layout(g0);
    lemma_hex_bytes_layout(g1);
    lemma_hex_bytes_layout(g2);
    lemma_hex_bytes_layout(g3);
    lemma_hex_bytes_layout(g4);
    let t = uuid_text(b);
    assert(t.len() == 36);
    assert forall|i: int| 0 <= i < 36 implies (#[trigger] t[i] == '-' <==> (i == 8 || i == 13 || i == 18 || i == 23)) && (
        (i != 8 && i != 13 && i != 18 && i != 23) ==> is_hex_digit(t[i])) by {
        if i < 8 {
            assert(t[i] == hex_bytes(g0)[i]);
        } else if i == 8 {
        } else if i < 13 {
            assert(t[i] == hex_bytes(g1)[i - 9]);
        } else if i == 13 {
        } else if i < 18 {
            assert(t[i] == hex_bytes(g2)[i - 14]);
        } else if i == 18 {
        } else if i < 23 {
            assert(t[i] == hex_bytes(g3)[i - 19]);
        } else if i == 23 {
        } else {
            assert(t[i] == hex_bytes(g4)[i - 24]);
        }
    }
    assert forall|k: int| 0 <= k < 16 implies {
        &&& #[trigger] t[uuid_digit_pos(k)] == hex_char(b[k] as int / 16)
        &&& t[uuid_digit_pos(k) + 1] == hex_char(b[k] as int % 16)
    } by {
        if k < 4 {
            assert(g0[k] == b[k]);
            assert(t[uuid_digit_pos(k)] == hex_bytes(g0)[2 * k]);
            assert(t[uuid_digit_pos(k) + 1] == hex_bytes(g0)[2 * k + 1]);
        } else if k < 6 {
            assert(g1[k - 4] == b[k]);
            assert(t[uuid_digit_pos(k)] == hex_bytes(g1)[2 * (k - 4)]);
            assert(t[uuid_digit_pos(k) + 1] == hex_bytes(g1)[2 * (k - 4) + 1]);
        } else if k < 8 {
            assert(g2[k - 6] == b[k]);
            assert(t[uuid_digit_pos(k)] == hex_bytes(g2)[2 * (k - 6)]);
            assert(t[uuid_digit_pos(k) + 1] == hex_bytes(g2)[2 * (k - 6) + 1]);
        } else if k < 10 {
            assert(g3[k - 8] == b[k]);
            assert(t[uuid_digit_pos(k)] == hex_bytes(g3)[2 * (k - 8)]);
            assert(t[uuid_digit_pos(k) + 1] == hex_bytes(g3)[2 * (k - 8) + 1]);
        } else {
            assert(g4[k - 10] == b[k]);
            assert(t[uuid_digit_pos(k)] == hex_bytes(g4)[2 * (k - 10)]);
            assert(t[uuid_digit_pos(k) + 1] == hex_bytes(g4)[2 * (k - 10) + 1]);
        }
    }
    assert(t[14] == hex_bytes(g2)[2 * 0int]);
    assert(t[19] == hex_bytes(g3)[2 * 0int]);
}

proof fn lemma_decimal_digits_shape(n: nat)
    ensures
        decimal_digits(n).len() >= 1,
        n >= 10 <==> decimal_digits(n).len() >= 2,
        forall|i: int| 0 <= i < decimal_digits(n).len() ==> #[trigger] decimal_digits(n)[i] != '-',
    decreases n,
{
    if n >= 10 {
        lemma_decimal_digits_shape(n / 10);
        assert forall|i: int| 0 <= i < decimal_digits(n).len() implies #[trigger] decimal_digits(n)[i] != '-' by {
            if i < decimal_digits(n / 10).len() {
                assert(decimal_digits(n)[i] == decimal_digits(n / 10)[i]);
            }
        }
    }
}

proof fn lemma_hex_char_injective(x: int, y: int)
    requires
        0 <= x < 16,
        0 <= y < 16,
        hex_char(x) == hex_char(y),
    ensures
        x == y,
{
}

proof fn lemma_decimal_digits_injective(a: nat, b: nat)
    requires
        decimal_digits(a) == decimal_digits(b),
    ensures
        a == b,
    decreases a,
{
    lemma_decimal_digits_shape(a);
    lemma_decimal_digits_shape(b);
    if a >= 10 && b >= 10 {
        let da = decimal_digits(a);
        assert(da.drop_last() =~= decimal_digits(a / 10));
        assert(decimal_digits(b).drop_last() =~= decimal_digits(b / 10));
        lemma_decimal_digits_injective(a / 10, b / 10);
        assert(da.last() == hex_char(a as int % 10));
        assert(decimal_digits(b).last() == hex_char(b as int % 10));
        lemma_hex_char_injective(a as int % 10, b as int % 10);
    } else if a < 10 && b < 10 {
        assert(decimal_digits(a) == seq![hex_char(a as int)]);
        assert(decimal_digits(b) == seq![hex_char(b as int)]);
        assert(seq![hex_char(a as int)][0] == hex_char(a as int));
        assert(seq![hex_char(b as int)][0] == hex_char(b as int));
        assert(decimal_digits(a)[0] == decimal_digits(b)[0]);
        lemma_hex_char_injective(a as int, b as int);
    }
}

/// Different integers have different decimal texts, so a decimal text names
/// exactly one integer.
pub proof fn lemma_decimal_injective(a: int, b: int)
    requires
        decimal(a) == decimal(b),
    ensures
        a == b,
{
    if a < 0 && b < 0 {
        let da = decimal_digits((-a) as nat);
        let db = decimal_digits((-b) as nat);
        assert(decimal(a).drop_first() =~= da);
        assert(decimal(b).drop_first() =~= db);
        lemma_decimal_digits_injective((-a) as nat, (-b) as nat);
    } else if a < 0 {
        lemma_decimal_digits_shape(b as nat);
        assert(decimal(a)[0] == '-');
    } else if b < 0 {
        lemma_decimal_digits_shape(a as nat);
        assert(decimal(b)[0] == '-');
    } else {
        lemma_decimal_digits_injective(a as nat, b as nat);
    }
}

/// Hex digits are the ASCII characters `0`..`9` for 0..9 and `a`..`f` for 10..15.
pub proof fn lemma_hex_char_code(n: int)
    requires
        0 <= n < 16,
    ensures
        n < 10 ==> hex_char(n) as u32 == 48 + n,
        n >= 10 ==> hex_char(n) as u32 == 87 + n,
{
}

/// The number a string of decimal digits denotes, most significant first.
pub open spec fn digits_value(s: Seq<char>) -> int
    decreases s.len(),
{
    if s.len() == 0 {
        0
    } else {
        digits_value(s.drop_last()) * 10 + (s.last() as u32 - 48)
    }
}

/// Whether every character of `s` is one of `0`..`9`.
pub open spec fn all_decimal_digits(s: Seq<char>) -> bool {
    forall|i: int| 0 <= i < s.len() ==> 48 <= #[trigger] s[i] as u32 <= 57
}

/// The decimal digits of `n` are ASCII digits, the first is not `0` unless
/// `n` is 0, and together they denote `n`.
pub proof fn lemma_decimal_digits_value(n: nat)
    ensures
        all_decimal_digits(decimal_digits(n)),
        digits_value(decimal_digits(n)) == n,
        decimal_digits(n).len() > 1 ==> decimal_digits(n)[0] != '0',
    decreases n,
{
    lemma_hex_char_code(n as int % 10);
    if n >= 10 {
        lemma_decimal_digits_value(n / 10);
        let d = decimal_digits(n);
        assert(d.drop_last() =~= decimal_digits(n / 10));
        assert(d.last() == hex_char(n as int % 10));
        assert(digits_value(d) == digits_value(d.drop_last()) * 10 + (d.last() as u32 - 48));
        assert(digits_value(d) == (n / 10) as int * 10 + n as int % 10);
        assert forall|i: int| 0 <= i < d.len() implies 48 <= #[trigger] d[i] as u32 <= 57 by {
            if i < d.len() - 1 {
                assert(d[i] == decimal_digits(n / 10)[i]);
            }
        }
        lemma_decimal_digits_shape(n / 10);
        assert(d[0] == decimal_digits(n / 10)[0]);
        if decimal_digits(n / 10).len() == 1 {
            lemma_hex_char_code(n as int / 10);
            assert(decimal_digits(n / 10) == seq![hex_char(n as int / 10)]);
        }
    } else {
        assert(decimal_digits(n) == seq![hex_char(n as int)]);
        let d = decimal_digits(n);
        assert(d.drop_last() =~= Seq::<char>::empty());
        assert(digits_value(d.drop_last()) == 0);
        assert(d.last() == hex_char(n as int));
        assert(d[0] == hex_char(n as int));
    }
}

/// The decimal text of an integer is its digits, preceded by `-` exactly
/// when it is negative, and the digits denote its magnitude.
pub proof fn lemma_decimal_value(n: int)
    ensures
        n < 0 ==> decimal(n)[0] == '-' && decimal(n).drop_first() == decimal_digits((-n) as nat)
            && digits_value(decimal(n).drop_first()) == -n,
        n >= 0 ==> all_decimal_digits(decimal(n)) && digits_value(decimal(n)) == n,
{
    if n < 0 {
        lemma_decimal_digits_value((-n) as nat);
        assert(decimal(n).drop_first() =~= decimal_digits((-n) as nat));
    } else {
        lemma_decimal_digits_value(n as nat);
    }
}

} // verus!
