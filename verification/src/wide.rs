//! Wide text: titles as the sequences of UTF-16 code units that native text
//! interfaces store.

use vstd::prelude::*;
use vstd::string::StrSliceExecFns;

verus! {

/// What stands for a code unit that belongs to no character.
pub const REPLACEMENT: char = '\u{FFFD}';

/// Whether `v` is the number of a character: any code point but a surrogate.
pub open spec fn is_scalar(v: u32) -> bool {
    v <= 0xD7FF || (0xE000 <= v && v <= 0x10FFFF)
}

/// Whether `u` is the first unit of a surrogate pair.
pub open spec fn is_high(u: u16) -> bool {
    0xD800 <= u && u <= 0xDBFF
}

/// Whether `u` is the second unit of a surrogate pair.
pub open spec fn is_low(u: u16) -> bool {
    0xDC00 <= u && u <= 0xDFFF
}

/// The code units of one character: itself below `0x10000`, a surrogate pair
/// that splits its offset from `0x10000` into ten and ten bits above.
pub open spec fn units_of(c: char) -> Seq<u16> {
    let v = c as u32;
    if v < 0x10000 {
        seq![v as u16]
    } else {
        seq![
            (0xD800 + (v - 0x10000) / 0x400) as u16,
            (0xDC00 + (v - 0x10000) % 0x400) as u16,
        ]
    }
}

/// The character that a surrogate pair stands for.
pub open spec fn pair_scalar(high: u16, low: u16) -> u32 {
    (0x10000 + (high - 0xD800) * 0x400 + (low - 0xDC00)) as u32
}

/// The code units of a text: those of its characters, in order.
pub open spec fn encode(text: Seq<char>) -> Seq<u16>
    decreases text.len(),
{
    if text.len() == 0 {
        Seq::empty()
    } else {
        units_of(text[0]) + encode(text.drop_first())
    }
}

/// The text that a sequence of code units stands for. A surrogate pair gives
/// its character, any other unit gives its own, and a surrogate without its
/// partner gives [`REPLACEMENT`].
pub open spec fn decode(units: Seq<u16>) -> Seq<char>
    decreases units.len(),
{
    if units.len() == 0 {
        Seq::empty()
    } else if is_high(units[0]) && units.len() >= 2 && is_low(units[1]) {
        seq![pair_scalar(units[0], units[1]) as char] + decode(units.skip(2))
    } else if is_high(units[0]) || is_low(units[0]) {
        seq![REPLACEMENT] + decode(units.skip(1))
    } else {
        seq![units[0] as char] + decode(units.skip(1))
    }
}

/// The number of units before the first zero unit, or the number of all units
/// where none is zero.
pub open spec fn nul_index(units: Seq<u16>) -> nat
    decreases units.len(),
{
    if units.len() == 0 || units[0] == 0 {
        0
    } else {
        1 + nul_index(units.drop_first())
    }
}

/// The units in front of the first zero unit: the text of a buffer that a
/// zero unit terminates.
pub open spec fn until_nul(units: Seq<u16>) -> Seq<u16> {
    units.take(nul_index(units) as int)
}

/// A text as native interfaces take it: its code units and a zero unit.
pub open spec fn terminated(text: Seq<char>) -> Seq<u16> {
    encode(text).push(0u16)
}

/// Whether the zero character occurs nowhere in `text`.
pub open spec fn nul_free(text: Seq<char>) -> bool {
    forall|i: int| 0 <= i < text.len() ==> text[i] as u32 != 0
}

/// `nul_index` is the first position of a zero unit.
pub proof fn lemma_nul_index(units: Seq<u16>)
    ensures
        nul_index(units) <= units.len(),
        forall|j: int| 0 <= j < nul_index(units) ==> units[j] != 0,
        nul_index(units) < units.len() ==> units[nul_index(units) as int] == 0,
    decreases units.len(),
{
    if units.len() == 0 || units[0] == 0 {
    } else {
        let rest = units.drop_first();
        lemma_nul_index(rest);
        assert forall|j: int| 0 <= j < nul_index(units) implies units[j] != 0 by {
            if j > 0 {
                assert(units[j] == rest[j - 1]);
            }
        }
        if nul_index(units) < units.len() {
            assert(units[nul_index(units) as int] == rest[nul_index(rest) as int]);
        }
    }
}

/// A position that holds the first zero unit is `nul_index`.
pub proof fn lemma_nul_index_at(units: Seq<u16>, n: int)
    requires
        0 <= n <= units.len(),
        forall|j: int| 0 <= j < n ==> units[j] != 0,
        n < units.len() ==> units[n] == 0,
    ensures
        nul_index(units) == n,
{
    lemma_nul_index(units);
    let k = nul_index(units) as int;
    if k < n {
        assert(units[k] != 0);
    } else if k > n {
        assert(units[n] != 0);
    }
}

/// The units of a character decode to that character, whatever follows.
pub proof fn lemma_decode_units_of(c: char, rest: Seq<u16>)
    ensures
        decode(units_of(c) + rest) == seq![c] + decode(rest),
{
    let v = c as u32;
    let all = units_of(c) + rest;
    if v < 0x10000 {
        assert(all[0] == v as u16);
        assert(!is_high(all[0]) && !is_low(all[0]));
        assert(all.skip(1) =~= rest);
        assert((all[0] as char) == c);
    } else {
        let w = (v - 0x10000) as int;
        assert(0 <= w / 0x400 < 0x400 && 0 <= w % 0x400 < 0x400);
        assert(w == (w / 0x400) * 0x400 + w % 0x400);
        assert(all[0] == (0xD800 + w / 0x400) as u16);
        assert(all[1] == (0xDC00 + w % 0x400) as u16);
        assert(is_high(all[0]) && is_low(all[1]));
        assert(all.skip(2) =~= rest);
        assert(pair_scalar(all[0], all[1]) == v);
        assert((pair_scalar(all[0], all[1]) as char) == c);
    }
}

/// Decoding undoes encoding.
pub proof fn lemma_round_trip(text: Seq<char>)
    ensures
        decode(encode(text)) == text,
    decreases text.len(),
{
    if text.len() == 0 {
        assert(decode(encode(text)) =~= text);
    } else {
        lemma_round_trip(text.drop_first());
        lemma_decode_units_of(text[0], encode(text.drop_first()));
        assert(seq![text[0]] + text.drop_first() =~= text);
    }
}

/// A character other than the zero character has no zero unit.
pub proof fn lemma_units_nul_free(c: char)
    requires
        c as u32 != 0,
    ensures
        forall|j: int| 0 <= j < units_of(c).len() ==> units_of(c)[j] != 0,
{
    let v = c as u32;
    if v >= 0x10000 {
        let w = (v - 0x10000) as int;
        assert(0 <= w / 0x400 < 0x400 && 0 <= w % 0x400 < 0x400);
    }
}

/// A text without the zero character has no zero unit.
pub proof fn lemma_encode_nul_free(text: Seq<char>)
    requires
        nul_free(text),
    ensures
        forall|j: int| 0 <= j < encode(text).len() ==> encode(text)[j] != 0,
    decreases text.len(),
{
    if text.len() > 0 {
        let rest = text.drop_first();
        assert forall|i: int| 0 <= i < rest.len() implies rest[i] as u32 != 0 by {
            assert(rest[i] == text[i + 1]);
        }
        lemma_encode_nul_free(rest);
        let head = units_of(text[0]);
        lemma_units_nul_free(text[0]);
        assert forall|j: int| 0 <= j < encode(text).len() implies encode(text)[j] != 0 by {
            if j < head.len() {
                assert(encode(text)[j] == head[j]);
            } else {
                assert(encode(text)[j] == encode(rest)[j - head.len()]);
            }
        }
    }
}

/// Terminating a text without the zero character and reading it back up to
/// the terminator gives the text.
pub proof fn lemma_terminated_round_trip(text: Seq<char>)
    requires
        nul_free(text),
    ensures
        until_nul(terminated(text)) == encode(text),
        decode(until_nul(terminated(text))) == text,
{
    lemma_encode_nul_free(text);
    lemma_round_trip(text);
    let wide = terminated(text);
    lemma_nul_index_at(wide, encode(text).len() as int);
    assert(wide.take(encode(text).len() as int) =~= encode(text));
}

/// `String::push` of the standard library, which appends one character to
/// the end of a string and leaves the rest of it alone.
pub assume_specification[ String::push ](s: &mut String, c: char)
    ensures
        final(s)@ == old(s)@.push(c),
;

/// `char::from_u32` of the standard library, which gives the character with
/// the number `v`, and `None` for a surrogate or a number above `0x10FFFF`.
pub assume_specification[ char::from_u32 ](v: u32) -> (c: Option<char>)
    ensures
        is_scalar(v) ==> c == Some(v as char),
        !is_scalar(v) ==> c is None,
;

/// The code units of `text`, without a terminator.
pub fn to_units(text: &str) -> (units: Vec<u16>)
    ensures
        units@ == encode(text@),
{
    let n: usize = text.unicode_len();
    let mut out: Vec<u16> = Vec::new();
    let mut i: usize = 0;
    assert(text@.skip(0) =~= text@);
    assert(out@ + encode(text@) =~= encode(text@));
    while i < n
        invariant
            i <= n,
            n == text@.len(),
            out@ + encode(text@.skip(i as int)) == encode(text@),
        decreases n - i,
    {
        let c: char = text.get_char(i);
        let v: u32 = c as u32;
        let ghost before = out@;
        let ghost tail = text@.skip(i as int);
        proof {
            assert(tail[0] == c);
            assert(tail.drop_first() =~= text@.skip(i + 1));
        }
        if v < 0x10000 {
            out.push(v as u16);
        } else {
            let w: u32 = v - 0x10000;
            out.push((0xD800 + w / 0x400) as u16);
            out.push((0xDC00 + w % 0x400) as u16);
        }
        proof {
            assert(out@ =~= before + units_of(c));
            assert(out@ + encode(text@.skip(i + 1)) =~= before + encode(tail));
        }
        i += 1;
    }
    assert(encode(text@.skip(n as int)) =~= Seq::<u16>::empty());
    assert(out@ + Seq::<u16>::empty() =~= out@);
    out
}

/// `text` as native text interfaces take it: its code units, then a zero
/// unit.
pub fn to_wide(text: &str) -> (wide: Vec<u16>)
    ensures
        wide@ == terminated(text@),
{
    let mut wide = to_units(text);
    wide.push(0);
    wide
}

/// The number of units in front of the first zero unit of `units`; the
/// number of all of them where none is zero.
pub fn wide_len(units: &[u16]) -> (n: usize)
    ensures
        n == nul_index(units@),
        n <= units@.len(),
{
    let mut i: usize = 0;
    while i < units.len() && units[i] != 0
        invariant
            i <= units@.len(),
            forall|j: int| 0 <= j < i ==> units@[j] != 0,
        decreases units@.len() - i,
    {
        i += 1;
    }
    proof {
        lemma_nul_index_at(units@, i as int);
    }
    i
}

/// The text that the units stand for.
pub fn from_units(units: &[u16]) -> (text: String)
    ensures
        text@ == decode(units@),
{
    assert(units@.take(units@.len() as int) =~= units@);
    decode_prefix(units, units.len())
}

/// The text that the first `n` units of `units` stand for.
fn decode_prefix(units: &[u16], n: usize) -> (text: String)
    requires
        n <= units@.len(),
    ensures
        text@ == decode(units@.take(n as int)),
{
    let ghost src = units@.take(n as int);
    let mut out = String::new();
    let mut i: usize = 0;
    assert(src.skip(0) =~= src);
    assert(out@ + decode(src) =~= decode(src));
    while i < n
        invariant
            i <= n,
            n <= units@.len(),
            src == units@.take(n as int),
            out@ + decode(src.skip(i as int)) == decode(src),
        decreases n - i,
    {
        let u: u16 = units[i];
        let ghost before = out@;
        let ghost tail = src.skip(i as int);
        assert(tail[0] == u);
        if 0xD800 <= u && u <= 0xDBFF && i + 1 < n && 0xDC00 <= units[i + 1] && units[i + 1]
            <= 0xDFFF {
            let low: u16 = units[i + 1];
            assert(tail[1] == low);
            let v: u32 = 0x10000 + (u as u32 - 0xD800) * 0x400 + (low as u32 - 0xDC00);
            assert(v == pair_scalar(u, low));
            let c: char = match char::from_u32(v) {
                Some(c) => c,
                None => REPLACEMENT,
            };
            out.push(c);
            proof {
                assert(tail.skip(2) =~= src.skip(i + 2));
                assert(out@ + decode(src.skip(i + 2)) =~= before + decode(tail));
            }
            i += 2;
        } else {
            let c: char = match char::from_u32(u as u32) {
                Some(c) => c,
                None => REPLACEMENT,
            };
            out.push(c);
            proof {
                assert(tail.skip(1) =~= src.skip(i + 1));
                assert(out@ + decode(src.skip(i + 1)) =~= before + decode(tail));
            }
            i += 1;
        }
    }
    assert(decode(src.skip(n as int)) =~= Seq::<char>::empty());
    assert(out@ + Seq::<char>::empty() =~= out@);
    out
}

/// The text of a buffer that a zero unit terminates: what stands in front
/// of the first zero unit, or all of it where there is none.
pub fn from_wide(wide: &[u16]) -> (text: String)
    ensures
        text@ == decode(until_nul(wide@)),
{
    let n: usize = wide_len(wide);
    decode_prefix(wide, n)
}

} // verus!
