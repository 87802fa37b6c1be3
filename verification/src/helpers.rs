//! String conversion helpers for the fixed-size, NUL-terminated text buffers
//! that VST3 C structs carry.

use vstd::prelude::*;
use vstd::utf8::{decode_utf8, valid_utf8};

verus! {

/// Index of the first `nul` element of `s`, or `s.len()` when there is none.
pub open spec fn nul_index<T>(s: Seq<T>, nul: T) -> nat
    decreases s.len(),
{
    if s.len() == 0 {
        0
    } else if s[0] == nul {
        0
    } else {
        1 + nul_index(s.drop_first(), nul)
    }
}

/// A scan that found no `nul` before `i` and stops at `i` found the first one.
pub proof fn lemma_nul_index<T>(s: Seq<T>, nul: T, i: int)
    requires
        0 <= i <= s.len(),
        forall|k: int| 0 <= k < i ==> s[k] != nul,
        i == s.len() || s[i] == nul,
    ensures
        nul_index(s, nul) == i,
    decreases i,
{
    if i > 0 {
        let t = s.drop_first();
        assert forall|k: int| 0 <= k < i - 1 implies t[k] != nul by {
            assert(t[k] == s[k + 1]);
        }
        if i - 1 < t.len() {
            assert(t[i - 1] == s[i]);
        }
        lemma_nul_index(t, nul, i - 1);
    }
}

/// `nul_index` never exceeds the length.
pub proof fn lemma_nul_index_bound<T>(s: Seq<T>, nul: T)
    ensures
        nul_index(s, nul) <= s.len(),
    decreases s.len(),
{
    if s.len() > 0 && s[0] != nul {
        lemma_nul_index_bound(s.drop_first(), nul);
    }
}

/// The UTF-16 code units that encode one character: one unit below
/// U+10000, a surrogate pair above.
pub open spec fn utf16_units_of(c: char) -> Seq<u16> {
    let v = c as int;
    if v < 0x10000 {
        seq![v as u16]
    } else {
        seq![(0xD800 + (v - 0x10000) / 0x400) as u16, (0xDC00 + (v - 0x10000) % 0x400) as u16]
    }
}

/// The UTF-16 encoding of a character sequence.
pub open spec fn utf16_encode(s: Seq<char>) -> Seq<u16>
    decreases s.len(),
{
    if s.len() == 0 {
        Seq::empty()
    } else {
        utf16_encode(s.drop_last()) + utf16_units_of(s.last())
    }
}

/// A high (leading) surrogate code unit.
pub open spec fn is_high_surrogate(u: u16) -> bool {
    0xD800 <= u < 0xDC00
}

/// A low (trailing) surrogate code unit.
pub open spec fn is_low_surrogate(u: u16) -> bool {
    0xDC00 <= u < 0xE000
}

/// U+FFFD, which lossy decoding puts in place of what it cannot decode.
pub open spec fn replacement_char() -> char {
    '\u{FFFD}'
}

/// The character a surrogate pair encodes.
pub open spec fn surrogate_pair_char(high: u16, low: u16) -> char {
    (((high - 0xD800) * 0x400 + (low - 0xDC00) + 0x10000) as u32) as char
}

/// Lossy UTF-16 decoding: a high surrogate followed by a low one is the
/// character they encode, any other surrogate becomes U+FFFD, and every
/// other code unit is the character with its value.
pub open spec fn utf16_decode_lossy(units: Seq<u16>) -> Seq<char>
    decreases units.len(),
{
    if units.len() == 0 {
        Seq::empty()
    } else if units.len() >= 2 && is_high_surrogate(units[0]) && is_low_surrogate(units[1]) {
        seq![surrogate_pair_char(units[0], units[1])] + utf16_decode_lossy(units.skip(2))
    } else if 0xD800 <= units[0] < 0xE000 {
        seq![replacement_char()] + utf16_decode_lossy(units.skip(1))
    } else {
        seq![((units[0] as u32) as char)] + utf16_decode_lossy(units.skip(1))
    }
}

/// Decoding splits at a point that does not follow a high surrogate.
proof fn lemma_utf16_decode_concat(a: Seq<u16>, b: Seq<u16>)
    requires
        a.len() == 0 || !is_high_surrogate(a.last()),
    ensures
        utf16_decode_lossy(a + b) == utf16_decode_lossy(a) + utf16_decode_lossy(b),
    decreases a.len(),
{
    let ab = a + b;
    if a.len() == 0 {
        assert(ab =~= b);
        assert(utf16_decode_lossy(a) =~= Seq::<char>::empty());
        assert(Seq::<char>::empty() + utf16_decode_lossy(b) =~= utf16_decode_lossy(b));
    } else {
        assert(ab[0] == a[0]);
        if a.len() >= 2 && is_high_surrogate(a[0]) && is_low_surrogate(a[1]) {
            assert(ab[1] == a[1]);
            assert(ab.skip(2) =~= a.skip(2) + b);
            if a.skip(2).len() > 0 {
                assert(a.skip(2).last() == a.last());
            }
            lemma_utf16_decode_concat(a.skip(2), b);
            assert(utf16_decode_lossy(ab) =~= utf16_decode_lossy(a) + utf16_decode_lossy(b));
        } else {
            if is_high_surrogate(a[0]) {
                assert(a.len() >= 2);
                assert(ab[1] == a[1]);
            }
            assert(ab.skip(1) =~= a.skip(1) + b);
            if a.skip(1).len() > 0 {
                assert(a.skip(1).last() == a.last());
            }
            lemma_utf16_decode_concat(a.skip(1), b);
            assert(utf16_decode_lossy(ab) =~= utf16_decode_lossy(a) + utf16_decode_lossy(b));
        }
    }
}

/// One character's code units decode to that character, and they never
/// end with a high surrogate.
proof fn lemma_utf16_decode_char(c: char)
    ensures
        utf16_decode_lossy(utf16_units_of(c)) == seq![c],
        !is_high_surrogate(utf16_units_of(c).last()),
{
    let u = c as u32;
    vstd::utf8::char_is_scalar(c);
    vstd::utf8::char_u32_cast(c, u);
    let v = c as int;
    assert(v == u);
    let units = utf16_units_of(c);
    if v < 0x10000 {
        assert(!(0xD800 <= v < 0xE000));
        assert((v as u16) as int == v);
        assert(units[0] as u32 == u);
        assert(((units[0] as u32) as char) == c);
        assert(units.skip(1) =~= Seq::<u16>::empty());
        assert(utf16_decode_lossy(units.skip(1)) == Seq::<char>::empty());
        assert(!(0xD800 <= units[0] < 0xE000));
        assert(utf16_decode_lossy(units) == seq![((units[0] as u32) as char)] + utf16_decode_lossy(
            units.skip(1),
        ));
        assert(utf16_decode_lossy(units) =~= seq![c]);
    } else {
        assert(v <= 0x10FFFF);
        let w = v - 0x10000;
        let q = w / 0x400;
        let r = w % 0x400;
        assert(q * 0x400 + r == w && 0 <= r < 0x400 && 0 <= q < 0x400) by (nonlinear_arith)
            requires
                0 <= w < 0x100000,
                q == w / 0x400,
                r == w % 0x400,
        ;
        let hi = 0xD800 + q;
        let lo = 0xDC00 + r;
        assert((hi as u16) as int == hi);
        assert((lo as u16) as int == lo);
        assert(units[0] == hi && units[1] == lo);
        assert(((units[0] - 0xD800) * 0x400 + (units[1] - 0xDC00) + 0x10000) == v);
        assert(surrogate_pair_char(units[0], units[1]) == c);
        assert(units.skip(2) =~= Seq::<u16>::empty());
        assert(utf16_decode_lossy(units.skip(2)) == Seq::<char>::empty());
        assert(is_high_surrogate(units[0]) && is_low_surrogate(units[1]));
        assert(utf16_decode_lossy(units) == seq![surrogate_pair_char(units[0], units[1])]
            + utf16_decode_lossy(units.skip(2)));
        assert(utf16_decode_lossy(units) =~= seq![c]);
    }
}

/// Well-formed UTF-16 decodes back to the characters it encodes.
pub proof fn lemma_utf16_decode_encode(c: Seq<char>)
    ensures
        utf16_decode_lossy(utf16_encode(c)) == c,
        c.len() > 0 ==> !is_high_surrogate(utf16_encode(c).last()),
    decreases c.len(),
{
    if c.len() == 0 {
        assert(utf16_decode_lossy(utf16_encode(c)) =~= c);
    } else {
        let p = c.drop_last();
        let x = c.last();
        lemma_utf16_decode_encode(p);
        lemma_utf16_decode_char(x);
        lemma_utf16_decode_concat(utf16_encode(p), utf16_units_of(x));
        assert(p.push(x) =~= c);
        assert(p + seq![x] =~= c);
        let e = utf16_encode(c);
        assert(e == utf16_encode(p) + utf16_units_of(x));
        assert(e.last() == utf16_units_of(x).last());
    }
}

/// What `String::from_utf8_lossy` returns (as an owned string) for the
/// given bytes.
pub uninterp spec fn utf8_lossy(bytes: Seq<u8>) -> Seq<char>;

/// Code units without a zero decode to text without U+0000.
pub proof fn lemma_utf16_decode_no_nul(units: Seq<u16>)
    requires
        !units.contains(0u16),
    ensures
        !utf16_decode_lossy(units).contains('\0'),
    decreases units.len(),
{
    if units.len() > 0 {
        let k: int = if units.len() >= 2 && is_high_surrogate(units[0]) && is_low_surrogate(
            units[1],
        ) {
            2
        } else {
            1
        };
        let rest = units.skip(k);
        assert forall|j: int| 0 <= j < rest.len() implies rest[j] != 0u16 by {
            assert(rest[j] == units[j + k]);
        }
        lemma_utf16_decode_no_nul(rest);
        let first: char = if k == 2 {
            let hi = units[0];
            let lo = units[1];
            let v = (hi - 0xD800) * 0x400 + (lo - 0xDC00) + 0x10000;
            assert(0x10000 <= v <= 0x10FFFF) by (nonlinear_arith)
                requires
                    0xD800 <= hi < 0xDC00,
                    0xDC00 <= lo < 0xE000,
                    v == (hi - 0xD800) * 0x400 + (lo - 0xDC00) + 0x10000,
            ;
            assert((v as u32) as int == v);
            surrogate_pair_char(hi, lo)
        } else if 0xD800 <= units[0] < 0xE000 {
            replacement_char()
        } else {
            assert(units[0] != 0u16);
            (units[0] as u32) as char
        };
        assert(first != '\0');
        let d = utf16_decode_lossy(units);
        assert(d == seq![first] + utf16_decode_lossy(rest));
        assert forall|j: int| 0 <= j < d.len() implies d[j] != '\0' by {
            if j > 0 {
                assert(d[j] == utf16_decode_lossy(rest)[j - 1]);
            }
        }
    }
}

/// Calls `String::from_utf16_lossy`: as std documents, it decodes UTF-16
/// and replaces each unpaired surrogate with U+FFFD (`utf16_decode_lossy`).
#[verifier::external_body]
fn decode_utf16_lossy(units: &[u16]) -> (s: String)
    ensures
        s@ == utf16_decode_lossy(units@),
{
    String::from_utf16_lossy(units)
}

/// Calls `String::from_utf8_lossy` and takes the result as an owned
/// `String`. The result is named `utf8_lossy` of the bytes. As std
/// documents, valid UTF-8 decodes to exactly the characters it encodes,
/// and invalid sequences are replaced with U+FFFD: so invalid input yields
/// at least one U+FFFD, and valid UTF-8 followed by one more byte that is
/// not ASCII decodes to its characters and one U+FFFD. Only a zero byte
/// decodes to U+0000 (an overlong form of it is invalid, so replaced). How
/// many U+FFFD replace a longer invalid sequence is left unsaid.
#[verifier::external_body]
fn decode_utf8_lossy(bytes: &[u8]) -> (s: String)
    ensures
        s@ == utf8_lossy(bytes@),
        !bytes@.contains(0u8) ==> !s@.contains('\0'),
        valid_utf8(bytes@) ==> s@ == decode_utf8(bytes@),
        !valid_utf8(bytes@) ==> s@.contains(replacement_char()),
        forall|a: Seq<u8>, b: u8|
            #[trigger] a.push(b) == bytes@ && valid_utf8(a) && b >= 0x80 ==> s@ == decode_utf8(
                a,
            ).push(replacement_char()),
{
    String::from_utf8_lossy(bytes).into_owned()
}

/// The text of a NUL-terminated UTF-16 buffer: the code units before the
/// first NUL (or all of them), decoded lossily.
pub open spec fn utf16_text(units: Seq<u16>) -> Seq<char> {
    utf16_decode_lossy(units.take(nul_index(units, 0u16) as int))
}

/// The unsigned byte with the same bit pattern as a C `char`.
pub open spec fn c_char_byte(c: i8) -> u8 {
    if c >= 0 {
        c as u8
    } else {
        (c + 256) as u8
    }
}

/// The bytes of a NUL-terminated C string buffer before its first NUL.
pub open spec fn c_str_bytes(chars: Seq<i8>) -> Seq<u8> {
    chars.take(nul_index(chars, 0i8) as int).map_values(|c: i8| c_char_byte(c))
}

/// Index of the first NUL code unit, or the length when there is none.
fn utf16_nul_index(units: &[u16]) -> (end: usize)
    ensures
        end == nul_index(units@, 0u16),
        end <= units@.len(),
        forall|k: int| 0 <= k < end ==> units@[k] != 0u16,
{
    let mut i: usize = 0;
    while i < units.len()
        invariant
            i <= units@.len(),
            forall|k: int| 0 <= k < i ==> units@[k] != 0u16,
        ensures
            i <= units@.len(),
            forall|k: int| 0 <= k < i ==> units@[k] != 0u16,
            i == units@.len() || units@[i as int] == 0u16,
        decreases units@.len() - i,
    {
        if units[i] == 0 {
            break;
        }
        i = i + 1;
    }
    proof {
        lemma_nul_index(units@, 0u16, i as int);
    }
    i
}

/// Decode a NUL-terminated UTF-16 buffer (such as a VST3 `String128`).
pub fn utf16_to_string(bytes: &[u16]) -> (s: String)
    ensures
        s@ == utf16_text(bytes@),
        forall|c: Seq<char>|
            #[trigger] utf16_encode(c) == bytes@.take(nul_index(bytes@, 0u16) as int) ==> s@ == c,
        !s@.contains('\0'),
{
    let end = utf16_nul_index(bytes);
    let text = &bytes[0..end];
    proof {
        assert(text@ =~= bytes@.take(end as int));
    }
    let s = decode_utf16_lossy(text);
    proof {
        assert forall|c: Seq<char>|
            #[trigger] utf16_encode(c) == bytes@.take(nul_index(bytes@, 0u16) as int) implies s@
                == c by {
            lemma_utf16_decode_encode(c);
        }
        assert forall|j: int| 0 <= j < text@.len() implies text@[j] != 0u16 by {
            assert(text@[j] == bytes@[j]);
        }
        lemma_utf16_decode_no_nul(text@);
    }
    s
}

/// Convert a C `char` to the byte with the same bit pattern.
fn c_char_to_byte(c: i8) -> (b: u8)
    ensures
        b == c_char_byte(c),
{
    if c >= 0 {
        c as u8
    } else {
        (c as i16 + 256) as u8
    }
}

/// Decode a NUL-terminated C string buffer (such as the `char` arrays of
/// `PFactoryInfo`): the bytes before the first NUL, decoded lossily as UTF-8.
pub fn c_str_to_string(bytes: &[i8]) -> (s: String)
    ensures
        s@ == utf8_lossy(c_str_bytes(bytes@)),
        valid_utf8(c_str_bytes(bytes@)) ==> s@ == decode_utf8(c_str_bytes(bytes@)),
        !valid_utf8(c_str_bytes(bytes@)) ==> s@.contains(replacement_char()),
        forall|a: Seq<u8>, b: u8|
            #[trigger] a.push(b) == c_str_bytes(bytes@) && valid_utf8(a) && b >= 0x80 ==> s@
                == decode_utf8(a).push(replacement_char()),
        !s@.contains('\0'),
{
    let mut out: Vec<u8> = Vec::new();
    let mut i: usize = 0;
    while i < bytes.len()
        invariant
            i <= bytes@.len(),
            forall|k: int| 0 <= k < i ==> bytes@[k] != 0i8,
            out@ == bytes@.take(i as int).map_values(|c: i8| c_char_byte(c)),
        ensures
            i <= bytes@.len(),
            forall|k: int| 0 <= k < i ==> bytes@[k] != 0i8,
            out@ == bytes@.take(i as int).map_values(|c: i8| c_char_byte(c)),
            i == bytes@.len() || bytes@[i as int] == 0i8,
        decreases bytes@.len() - i,
    {
        if bytes[i] == 0 {
            break;
        }
        out.push(c_char_to_byte(bytes[i]));
        i = i + 1;
        assert(out@ =~= bytes@.take(i as int).map_values(|c: i8| c_char_byte(c)));
    }
    proof {
        lemma_nul_index(bytes@, 0i8, i as int);
        assert(out@ =~= c_str_bytes(bytes@));
        assert forall|j: int| 0 <= j < out@.len() implies out@[j] != 0u8 by {
            assert(bytes@[j] != 0i8);
            assert(out@[j] == c_char_byte(bytes@[j]));
        }
    }
    decode_utf8_lossy(out.as_slice())
}

} // verus!
