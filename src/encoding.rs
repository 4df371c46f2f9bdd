use vstd::prelude::*;
use vstd::slice::slice_to_vec;
use vstd::string::is_ascii_spec_bytes;
use vstd::utf8::is_ascii_chars;

verus! {

/// The UTF-16 code units of one character: one unit below U+10000, else a
/// surrogate pair.
pub open spec fn utf16_units(c: char) -> Seq<u16> {
    let v = c as u32;
    if v < 0x10000 {
        seq![v as u16]
    } else {
        let u = (v - 0x10000) as u32;
        seq![(0xD800 + u / 0x400) as u16, (0xDC00 + u % 0x400) as u16]
    }
}

/// The UTF-16 code units of a character sequence.
pub open spec fn utf16_of(s: Seq<char>) -> Seq<u16>
    decreases s.len(),
{
    if s.len() == 0 {
        Seq::empty()
    } else {
        utf16_of(s.drop_last()) + utf16_units(s.last())
    }
}

/// A path in the wide form that the wide query functions take: UTF-16 code
/// units followed by a terminating zero unit.
pub open spec fn wide_of(s: Seq<char>) -> Seq<u16> {
    utf16_of(s).push(0u16)
}

/// A path in the single-byte form: one byte per (ASCII) character followed
/// by a terminating zero byte.
pub open spec fn narrow_of(s: Seq<char>) -> Seq<u8> {
    Seq::new(s.len(), |i: int| s[i] as u8).push(0u8)
}

/// Zero-extends each byte to a wide code unit.
pub open spec fn widen(b: Seq<u8>) -> Seq<u16> {
    Seq::new(b.len(), |i: int| b[i] as u16)
}

/// Appends the UTF-16 code units of `c` to `out`.
fn push_utf16(out: &mut Vec<u16>, c: char)
    ensures
        final(out)@ == old(out)@ + utf16_units(c),
{
    let v: u32 = c as u32;
    if v < 0x10000 {
        out.push(v as u16);
    } else {
        let u: u32 = v - 0x10000;
        out.push((0xD800 + u / 0x400) as u16);
        out.push((0xDC00 + u % 0x400) as u16);
    }
    assert(final(out)@ =~= old(out)@ + utf16_units(c));
}

/// Encodes `s` as a zero-terminated UTF-16 sequence.
pub fn to_wide(s: &str) -> (r: Vec<u16>)
    ensures
        r@ == wide_of(s@),
{
    broadcast use vstd::string::axiom_spec_iter;

    let mut out: Vec<u16> = Vec::new();
    for c in it: s.chars()
        invariant
            it.seq() == s@,
            out@ == utf16_of(s@.take(it.index() as int)),
    {
        proof {
            let k = it.index() as int;
            assert(s@.take(k + 1).drop_last() =~= s@.take(k));
        }
        push_utf16(&mut out, c);
    }
    proof {
        assert(s@.take(s@.len() as int) =~= s@);
    }
    out.push(0u16);
    out
}

/// Encodes `s` as a zero-terminated single-byte sequence. Only ASCII text can
/// be written that way: any other character gives `None`.
pub fn to_narrow(s: &str) -> (r: Option<Vec<u8>>)
    ensures
        r is Some <==> is_ascii_chars(s@),
        r matches Some(b) ==> b@ == narrow_of(s@),
{
    if !s.is_ascii() {
        return None;
    }
    proof {
        is_ascii_spec_bytes(s);
    }
    let mut out: Vec<u8> = slice_to_vec(s.as_bytes());
    out.push(0u8);
    assert(out@ =~= narrow_of(s@));
    Some(out)
}

/// For ASCII text the two forms of a path agree unit for unit: each byte of
/// the single-byte form, zero-extended, is the wide form's code unit.
pub proof fn lemma_ascii_forms_agree(s: Seq<char>)
    requires
        is_ascii_chars(s),
    ensures
        widen(narrow_of(s)) == wide_of(s),
    decreases s.len(),
{
    if s.len() > 0 {
        let p = s.drop_last();
        assert forall|i: int| 0 <= i < p.len() implies '\0' <= #[trigger] p[i] <= '\u{7f}' by {
            assert(p[i] == s[i]);
        }
        lemma_ascii_forms_agree(p);
        let c = s.last();
        assert('\0' <= s[s.len() - 1] <= '\u{7f}');
        assert(widen(narrow_of(p)) =~= utf16_of(p).push(0u16));
        assert(utf16_of(p) =~= widen(narrow_of(p)).drop_last());
        assert(utf16_units(c) =~= seq![c as u16]);
        assert(widen(narrow_of(s)) =~= wide_of(s));
    } else {
        assert(widen(narrow_of(s)) =~= wide_of(s));
    }
}

} // verus!
