//! Decoding the byte payload of a name record into text.
use vstd::prelude::*;

verus! {

/// Whether a payload is read as UTF-16BE: it is non-empty, of even length,
/// and starts with a zero byte.
pub open spec fn is_utf16_payload(b: Seq<u8>) -> bool {
    b.len() > 0 && b.len() % 2 == 0 && b[0] == 0
}

/// The big-endian 16-bit units of a payload; a trailing odd byte is ignored.
pub open spec fn be_units(b: Seq<u8>) -> Seq<u16> {
    Seq::new(b.len() / 2, |i: int| (b[2 * i] as int * 256 + b[2 * i + 1] as int) as u16)
}

pub open spec fn is_surrogate(u: u16) -> bool {
    0xD800 <= u < 0xE000
}

pub open spec fn is_high_surrogate(u: u16) -> bool {
    0xD800 <= u < 0xDC00
}

pub open spec fn is_low_surrogate(u: u16) -> bool {
    0xDC00 <= u < 0xE000
}

/// The scalar values that a sequence of UTF-16 units encodes, or `None` when
/// a surrogate is not part of a high-low pair.
pub open spec fn utf16_scalars(u: Seq<u16>) -> Option<Seq<u32>>
    decreases u.len(),
{
    if u.len() == 0 {
        Some(Seq::empty())
    } else if !is_surrogate(u[0]) {
        match utf16_scalars(u.drop_first()) {
            Some(rest) => Some(seq![u[0] as u32] + rest),
            None => None,
        }
    } else if is_high_surrogate(u[0]) && u.len() >= 2 && is_low_surrogate(u[1]) {
        let cp = 0x10000 + (u[0] - 0xD800) * 0x400 + (u[1] - 0xDC00);
        match utf16_scalars(u.subrange(2, u.len() as int)) {
            Some(rest) => Some(seq![cp as u32] + rest),
            None => None,
        }
    } else {
        None
    }
}

pub open spec fn scalars_of(s: Seq<char>) -> Seq<u32> {
    s.map_values(|c: char| c as u32)
}

/// What std's lossy UTF-8 decoding makes of a byte sequence: valid sequences
/// as they are, each invalid one as U+FFFD.
pub uninterp spec fn utf8_lossy(b: Seq<u8>) -> Seq<char>;

/// Whether a payload decodes at all: only a UTF-16 payload can fail.
pub open spec fn name_decodes(b: Seq<u8>) -> bool {
    is_utf16_payload(b) ==> utf16_scalars(be_units(b)) is Some
}

/// Whether `t` is the text that payload `b` decodes to.
pub open spec fn name_decodes_to(b: Seq<u8>, t: Seq<char>) -> bool {
    if is_utf16_payload(b) {
        utf16_scalars(be_units(b)) == Some(scalars_of(t))
    } else {
        t == utf8_lossy(b)
    }
}

/// Relies on std::char::decode_utf16: each scalar value becomes one char,
/// and an unpaired surrogate makes the collection into a `String` fail.
#[verifier::external_body]
fn decode_utf16_units(units: &Vec<u16>) -> (r: Option<String>)
    ensures
        r is Some <==> utf16_scalars(units@) is Some,
        r matches Some(s) ==> utf16_scalars(units@) == Some(scalars_of(s@)),
{
    std::char::decode_utf16(units.iter().cloned()).collect::<Result<String, _>>().ok()
}

/// Relies on String::from_utf8_lossy: the text depends on the bytes alone,
/// and no bytes give no text.
#[verifier::external_body]
fn utf8_lossy_string(b: &[u8]) -> (r: String)
    ensures
        r@ == utf8_lossy(b@),
        b@.len() == 0 ==> r@.len() == 0,
{
    String::from_utf8_lossy(b).into_owned()
}

/// The big-endian 16-bit units of a payload.
pub fn be_units_of(bytes: &[u8]) -> (r: Vec<u16>)
    ensures
        r@ == be_units(bytes@),
{
    let len: usize = bytes.len();
    let n: usize = len / 2;
    let mut units: Vec<u16> = Vec::with_capacity(n);
    let mut i: usize = 0;
    while i < n
        invariant
            len == bytes@.len(),
            n == len / 2,
            i <= n,
            units@ == be_units(bytes@).subrange(0, i as int),
        decreases n - i,
    {
        assert(i + i + 1 < bytes@.len());
        let j: usize = i + i;
        let hi: u16 = bytes[j] as u16;
        let lo: u16 = bytes[j + 1] as u16;
        units.push(hi * 256 + lo);
        i += 1;
        assert(units@ =~= be_units(bytes@).subrange(0, i as int));
    }
    assert(units@ =~= be_units(bytes@));
    units
}

/// Decodes a name payload: a UTF-16BE payload strictly (`None` on a broken
/// surrogate), anything else as UTF-8 with replacement characters.
pub fn decode_name(bytes: &[u8]) -> (r: Option<String>)
    ensures
        r is Some <==> name_decodes(bytes@),
        r matches Some(t) ==> name_decodes_to(bytes@, t@),
        bytes@.len() == 0 ==> (r matches Some(t) && t@.len() == 0),
{
    if bytes.len() > 0 && bytes.len() % 2 == 0 && bytes[0] == 0 {
        let units = be_units_of(bytes);
        decode_utf16_units(&units)
    } else {
        Some(utf8_lossy_string(bytes))
    }
}

proof fn lemma_char_code_injective(a: char, b: char)
    requires
        a as u32 == b as u32,
    ensures
        a == b,
{
}

/// Two texts with the same scalar values are the same text.
pub proof fn lemma_scalars_injective(s: Seq<char>, t: Seq<char>)
    requires
        scalars_of(s) == scalars_of(t),
    ensures
        s == t,
{
    assert(s.len() == scalars_of(s).len());
    assert(t.len() == scalars_of(t).len());
    assert forall|i: int| 0 <= i < s.len() implies s[i] == t[i] by {
        assert(scalars_of(s)[i] == s[i] as u32);
        assert(scalars_of(t)[i] == t[i] as u32);
        lemma_char_code_injective(s[i], t[i]);
    }
    assert(s =~= t);
}

/// A payload decodes to at most one text.
pub proof fn lemma_decoded_text_unique(b: Seq<u8>, t1: Seq<char>, t2: Seq<char>)
    requires
        name_decodes_to(b, t1),
        name_decodes_to(b, t2),
    ensures
        t1 == t2,
{
    if is_utf16_payload(b) {
        lemma_scalars_injective(t1, t2);
    }
}

/// Whether `c` is a Unicode scalar value.
pub open spec fn is_scalar(c: u32) -> bool {
    c < 0xD800 || (0xE000 <= c && c <= 0x10FFFF)
}

/// The UTF-16 units of a sequence of scalar values: one unit below U+10000,
/// a high-low surrogate pair above.
pub open spec fn utf16_units_of(cps: Seq<u32>) -> Seq<u16>
    decreases cps.len(),
{
    if cps.len() == 0 {
        Seq::empty()
    } else {
        let c = cps[0];
        let head = if c < 0x10000 {
            seq![c as u16]
        } else {
            seq![(0xD800 + (c - 0x10000) / 0x400) as u16, (0xDC00 + (c - 0x10000) % 0x400) as u16]
        };
        head + utf16_units_of(cps.drop_first())
    }
}

/// Each unit as two bytes, high byte first.
pub open spec fn be_bytes_of(u: Seq<u16>) -> Seq<u8> {
    Seq::new(
        2 * u.len(),
        |i: int|
            if i % 2 == 0 {
                (u[i / 2] / 256) as u8
            } else {
                (u[i / 2] % 256) as u8
            },
    )
}

/// The UTF-16BE encoding of a text.
pub open spec fn utf16be_of(s: Seq<char>) -> Seq<u8> {
    be_bytes_of(utf16_units_of(scalars_of(s)))
}

proof fn lemma_units_decode(cps: Seq<u32>)
    requires
        forall|i: int| 0 <= i < cps.len() ==> is_scalar(#[trigger] cps[i]),
    ensures
        utf16_scalars(utf16_units_of(cps)) == Some(cps),
    decreases cps.len(),
{
    if cps.len() > 0 {
        let c = cps[0];
        let rest = cps.drop_first();
        assert forall|i: int| 0 <= i < rest.len() implies is_scalar(#[trigger] rest[i]) by {
            assert(rest[i] == cps[i + 1]);
        }
        lemma_units_decode(rest);
        let u = utf16_units_of(cps);
        let tail = utf16_units_of(rest);
        if c < 0x10000 {
            assert(u.drop_first() =~= tail);
        } else {
            let hi = (0xD800 + (c - 0x10000) / 0x400) as u16;
            let lo = (0xDC00 + (c - 0x10000) % 0x400) as u16;
            assert(u == seq![hi, lo] + tail);
            assert(u.subrange(2, u.len() as int) =~= tail);
            assert(0x10000 + (hi - 0xD800) * 0x400 + (lo - 0xDC00) == c) by (nonlinear_arith)
                requires
                    hi == 0xD800 + (c - 0x10000) / 0x400,
                    lo == 0xDC00 + (c - 0x10000) % 0x400,
                    0x10000 <= c <= 0x10FFFF,
            ;
        }
        assert(seq![c] + rest =~= cps);
    }
}

proof fn lemma_be_bytes_units(u: Seq<u16>)
    ensures
        be_units(be_bytes_of(u)) == u,
{
    let b = be_bytes_of(u);
    assert forall|i: int| 0 <= i < u.len() implies #[trigger] be_units(b)[i] == u[i] by {
        assert((2 * i) / 2 == i);
        assert((2 * i + 1) / 2 == i);
        assert((2 * i) % 2 == 0);
        assert((2 * i + 1) % 2 == 1);
    }
    assert(be_units(b) =~= u);
}

proof fn lemma_char_is_scalar(c: char)
    ensures
        is_scalar(c as u32),
{
    assert((c as int) < 0xD800 || (0xE000 <= (c as int) && (c as int) <= 0x10FFFF));
}

/// Any non-empty text whose UTF-16BE encoding starts with a zero byte
/// decodes back from that encoding to exactly the same text.
pub proof fn lemma_utf16_round_trip_any(s: Seq<char>)
    requires
        s.len() > 0,
        utf16be_of(s)[0] == 0,
    ensures
        is_utf16_payload(utf16be_of(s)),
        name_decodes(utf16be_of(s)),
        name_decodes_to(utf16be_of(s), s),
{
    let cps = scalars_of(s);
    assert forall|i: int| 0 <= i < cps.len() implies is_scalar(#[trigger] cps[i]) by {
        assert(cps[i] == s[i] as u32);
        lemma_char_is_scalar(s[i]);
    }
    lemma_units_decode(cps);
    lemma_be_bytes_units(utf16_units_of(cps));
    assert(utf16_units_of(cps).len() > 0);
}

} // verus!
