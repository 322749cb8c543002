use vstd::prelude::*;
use vstd::utf8::valid_utf8;
use vstd::utf8::decode_utf8;
use vstd::utf8::char_is_scalar;
use vstd::utf8::char_u32_cast;

verus! {

/// The UTF-16 code units of one character: one unit for a character of the
/// basic plane, a surrogate pair for any other.
pub open spec fn utf16_units(c: char) -> Seq<u16> {
    let v = c as u32;
    if v < 0x10000 {
        seq![v as u16]
    } else {
        let w = v - 0x10000;
        seq![(0xD800 + w / 0x400) as u16, (0xDC00 + w % 0x400) as u16]
    }
}

/// The UTF-16 encoding of a sequence of characters.
pub open spec fn utf16_encode(s: Seq<char>) -> Seq<u16>
    decreases s.len(),
{
    if s.len() == 0 {
        seq![]
    } else {
        utf16_encode(s.drop_last()) + utf16_units(s.last())
    }
}

/// A NUL-terminated wide string, as the wide-character Windows API takes one.
pub open spec fn wide_string(s: Seq<char>) -> Seq<u16> {
    utf16_encode(s).push(0)
}

/// A unit that opens a surrogate pair.
pub open spec fn is_high_surrogate(u: u16) -> bool {
    0xD800 <= u < 0xDC00
}

/// A unit that closes a surrogate pair.
pub open spec fn is_low_surrogate(u: u16) -> bool {
    0xDC00 <= u < 0xE000
}

/// The characters that UTF-16 units encode, or `None` where a surrogate
/// stands unpaired. The units are read from the end: a low surrogate with a
/// high one before it is one character, any other surrogate is an error, and
/// every other unit is the character of that number.
pub open spec fn utf16_decode(units: Seq<u16>) -> Option<Seq<char>>
    decreases units.len(),
{
    if units.len() == 0 {
        Some(seq![])
    } else {
        let last = units.last();
        if is_low_surrogate(last) && units.len() >= 2 && is_high_surrogate(
            units[units.len() - 2],
        ) {
            let high = units[units.len() - 2];
            let c = ((0x10000 + (high - 0xD800) * 0x400 + (last - 0xDC00)) as u32) as char;
            match utf16_decode(units.subrange(0, units.len() - 2)) {
                Some(prefix) => Some(prefix.push(c)),
                None => None,
            }
        } else if is_high_surrogate(last) || is_low_surrogate(last) {
            None
        } else {
            match utf16_decode(units.drop_last()) {
                Some(prefix) => Some(prefix.push((last as u32) as char)),
                None => None,
            }
        }
    }
}

/// Decoding the UTF-16 encoding of any characters gives them back.
pub proof fn lemma_utf16_round_trip(s: Seq<char>)
    ensures
        utf16_decode(utf16_encode(s)) == Some(s),
    decreases s.len(),
{
    if s.len() > 0 {
        let prefix = s.drop_last();
        let c = s.last();
        lemma_utf16_round_trip(prefix);
        let e = utf16_encode(s);
        let v = c as u32;
        char_is_scalar(c);
        char_u32_cast(c, v);
        if v < 0x10000 {
            assert(e.drop_last() =~= utf16_encode(prefix));
            assert(((v as u16) as u32) == v);
        } else {
            let w = v - 0x10000;
            assert(e.subrange(0, e.len() - 2) =~= utf16_encode(prefix));
            assert(0x10000 + (w / 0x400) * 0x400 + w % 0x400 == v);
            assert(((0x10000 + (w / 0x400) * 0x400 + w % 0x400) as u32) == v);
        }
        assert(prefix.push(c) =~= s);
    }
}

/// The wide string of `s` ends in its only added NUL, and the units before
/// it decode back to `s`.
pub proof fn lemma_wide_string_round_trip(s: Seq<char>)
    ensures
        wide_string(s).last() == 0u16,
        utf16_decode(wide_string(s).drop_last()) == Some(s),
{
    assert(wide_string(s).drop_last() =~= utf16_encode(s));
    lemma_utf16_round_trip(s);
}

/// The UTF-16 units of `c`, appended to `out`.
fn push_utf16(out: &mut Vec<u16>, c: char)
    ensures
        final(out)@ == old(out)@ + utf16_units(c),
{
    let v: u32 = c as u32;
    if v < 0x10000 {
        out.push(v as u16);
    } else {
        let w: u32 = v - 0x10000;
        out.push((0xD800 + w / 0x400) as u16);
        out.push((0xDC00 + w % 0x400) as u16);
    }
}

/// Encodes a string as a NUL-terminated UTF-16 string.
pub fn to_wstring(s: &str) -> (w: Vec<u16>)
    ensures
        w@ == wide_string(s@),
        w@.len() >= 1,
        w@.last() == 0u16,
        utf16_decode(w@.drop_last()) == Some(s@),
{
    proof {
        lemma_wide_string_round_trip(s@);
    }
    let mut out: Vec<u16> = Vec::new();
    let ghost mut done: int = 0;
    for c in it: s.chars()
        invariant
            it.seq() == s@,
            done == it.index(),
            out@ == utf16_encode(s@.take(done)),
    {
        proof {
            assert(s@.take(done + 1).drop_last() =~= s@.take(done));
        }
        push_utf16(&mut out, c);
        proof {
            done = done + 1;
        }
    }
    assert(s@.take(done) =~= s@);
    out.push(0);
    out
}

/// Number of UTF-16 units in the tooltip of a notification-area icon.
pub const TOOLTIP_LEN: usize = 128;

/// A tooltip buffer: the wide string, then zeros up to `TOOLTIP_LEN` units.
pub open spec fn tooltip_of(s: Seq<char>) -> Seq<u16> {
    wide_string(s) + Seq::new((TOOLTIP_LEN - wide_string(s).len()) as nat, |i: int| 0u16)
}

/// A tooltip buffer holds 128 units: the wide string of `s` (whose units
/// before its NUL decode back to `s`), then zeros to the end.
pub proof fn lemma_tooltip_holds_string(s: Seq<char>)
    requires
        wide_string(s).len() <= TOOLTIP_LEN,
    ensures
        tooltip_of(s).len() == 128,
        forall|i: int| 0 <= i < wide_string(s).len() ==> tooltip_of(s)[i] == wide_string(s)[i],
        forall|i: int| wide_string(s).len() <= i < 128 ==> tooltip_of(s)[i] == 0u16,
        tooltip_of(s)[wide_string(s).len() - 1] == 0u16,
        utf16_decode(tooltip_of(s).take(wide_string(s).len() - 1)) == Some(s),
{
    lemma_wide_string_round_trip(s);
    assert(tooltip_of(s).take(wide_string(s).len() - 1) =~= wide_string(s).drop_last());
}

/// Writes `s` as a NUL-terminated wide string at the start of a tooltip
/// buffer whose other units are zero.
pub fn create_tooltip(s: &str) -> (tip: [u16; 128])
    requires
        wide_string(s@).len() <= TOOLTIP_LEN,
    ensures
        tip@ == tooltip_of(s@),
        forall|i: int| 0 <= i < wide_string(s@).len() ==> tip@[i] == wide_string(s@)[i],
        forall|i: int| wide_string(s@).len() <= i < 128 ==> tip@[i] == 0u16,
        utf16_decode(tip@.take(wide_string(s@).len() - 1)) == Some(s@),
{
    proof {
        lemma_tooltip_holds_string(s@);
    }
    let w = to_wstring(s);
    let mut tip: [u16; 128] = [0u16; 128];
    let n: usize = w.len();
    for i in 0..n
        invariant
            n == w@.len(),
            n <= 128,
            w@ == wide_string(s@),
            forall|j: int| 0 <= j < i ==> tip@[j] == w@[j],
            forall|j: int| i <= j < 128 ==> tip@[j] == 0u16,
    {
        tip[i] = w[i];
    }
    assert(tip@ =~= tooltip_of(s@));
    tip
}

/// Capacity, in bytes, of the buffer that receives a window's title.
pub const TITLE_CAPACITY: i32 = 256;

/// What `String::from_utf8_lossy` makes of a byte sequence.
pub uninterp spec fn lossy_utf8(bytes: Seq<u8>) -> Seq<char>;

/// Calls `String::from_utf8_lossy` and takes the owned string. Trusted: its
/// result is named `lossy_utf8` of the bytes; where the bytes are valid
/// UTF-8 the documentation says they are returned unchanged, which the second
/// clause states. How invalid sequences are replaced is left unsaid.
#[verifier::external_body]
fn from_utf8_lossy(bytes: &[u8]) -> (s: String)
    ensures
        s@ == lossy_utf8(bytes@),
        valid_utf8(bytes@) ==> s@ == decode_utf8(bytes@),
{
    String::from_utf8_lossy(bytes).into_owned()
}

/// The title of a window, from the buffer that `GetWindowTextA` filled and the
/// number of bytes it reported copied: those bytes, decoded as UTF-8 with
/// invalid sequences replaced.
pub fn window_title(buffer: &[u8], copied: i32) -> (title: String)
    requires
        0 <= copied <= buffer@.len(),
    ensures
        title@ == lossy_utf8(buffer@.take(copied as int)),
        valid_utf8(buffer@.take(copied as int)) ==> title@ == decode_utf8(
            buffer@.take(copied as int),
        ),
{
    let n: usize = copied as usize;
    let mut bytes: Vec<u8> = Vec::with_capacity(n);
    for i in 0..n
        invariant
            n == copied,
            n <= buffer@.len(),
            bytes@ == buffer@.take(i as int),
    {
        bytes.push(buffer[i]);
        assert(bytes@ =~= buffer@.take(i + 1));
    }
    from_utf8_lossy(bytes.as_slice())
}

} // verus!
