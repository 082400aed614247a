//! NUL-terminated UTF-16 text, as the window system takes it.

use vstd::prelude::*;

verus! {

/// The UTF-16 code units of one character: the character itself in the
/// basic plane, a high and a low surrogate above it.
pub open spec fn utf16_units(c: char) -> Seq<u16> {
    let scalar = c as u32;
    if scalar < 0x1_0000 {
        seq![scalar as u16]
    } else {
        seq![
            (0xD800 + (scalar - 0x1_0000) / 0x400) as u16,
            (0xDC00 + (scalar - 0x1_0000) % 0x400) as u16,
        ]
    }
}

/// The UTF-16 encoding of a text: the units of its characters, in order.
pub open spec fn utf16_of(text: Seq<char>) -> Seq<u16>
    decreases text.len(),
{
    if text.len() == 0 {
        Seq::empty()
    } else {
        utf16_of(text.drop_last()) + utf16_units(text.last())
    }
}

/// The units of a character give the character back. A single unit is its
/// scalar value and no surrogate; a pair is a high surrogate followed by a
/// low one, which carry the twenty bits of the scalar value above `0x10000`.
pub proof fn lemma_utf16_units_decode(c: char)
    ensures
        ({
            let units = utf16_units(c);
            if (c as u32) < 0x1_0000 {
                &&& units.len() == 1
                &&& units[0] == c as u32
                &&& !(0xD800 <= units[0] <= 0xDFFF)
            } else {
                &&& units.len() == 2
                &&& 0xD800 <= units[0] <= 0xDBFF
                &&& 0xDC00 <= units[1] <= 0xDFFF
                &&& 0x1_0000 + (units[0] - 0xD800) * 0x400 + (units[1] - 0xDC00) == c as u32
            }
        }),
{
}

/// The encoding of a text followed by another is the two encodings in a row.
pub proof fn lemma_utf16_of_concat(first: Seq<char>, second: Seq<char>)
    ensures
        utf16_of(first + second) == utf16_of(first) + utf16_of(second),
    decreases second.len(),
{
    if second.len() == 0 {
        assert(first + second =~= first);
        assert(utf16_of(first) + utf16_of(second) =~= utf16_of(first));
    } else {
        lemma_utf16_of_concat(first, second.drop_last());
        assert((first + second).drop_last() =~= first + second.drop_last());
        assert((first + second).last() == second.last());
        assert(utf16_of(first + second) =~= utf16_of(first) + utf16_of(second));
    }
}

/// Encodes `source` as UTF-16 and appends the terminating zero.
pub fn l(source: &str) -> (wide: Vec<u16>)
    ensures
        wide@ == utf16_of(source@).push(0),
{
    let mut wide: Vec<u16> = Vec::new();
    for c in it: source.chars()
        invariant
            it.seq() == source@,
            wide@ == utf16_of(source@.take(it.index() as int)),
    {
        let ghost before = wide@;
        let scalar: u32 = c as u32;
        if scalar < 0x1_0000 {
            wide.push(scalar as u16);
        } else {
            let offset: u32 = scalar - 0x1_0000;
            wide.push((0xD800 + offset / 0x400) as u16);
            wide.push((0xDC00 + offset % 0x400) as u16);
        }
        proof {
            let next = source@.take(it.index() + 1);
            assert(next.drop_last() =~= source@.take(it.index() as int));
            assert(next.last() == c);
            assert(wide@ =~= before + utf16_units(c));
        }
    }
    assert(source@.take(source@.len() as int) =~= source@);
    wide.push(0);
    wide
}

} // verus!
