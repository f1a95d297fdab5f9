//! CEF's string type: a buffer of UTF-16 code units with a terminating zero
//! unit, and the number of units before it.
use vstd::prelude::*;
use vstd::utf8::{char_is_scalar, char_u32_cast};

verus! {

/// The UTF-16 code units of one character: one unit for a character of the
/// basic multilingual plane, a surrogate pair for the others.
pub open spec fn utf16_of_char(c: char) -> Seq<u16> {
    let v = c as u32;
    if v < 0x10000 {
        seq![v as u16]
    } else {
        let w = (v - 0x10000) as u32;
        seq![(0xD800 + w / 0x400) as u16, (0xDC00 + w % 0x400) as u16]
    }
}

/// The UTF-16 encoding of a character sequence.
pub open spec fn utf16_encode(s: Seq<char>) -> Seq<u16>
    decreases s.len(),
{
    if s.len() == 0 {
        Seq::empty()
    } else {
        utf16_encode(s.drop_last()) + utf16_of_char(s.last())
    }
}

/// The code points of a sequence of UTF-16 code units, read from the front:
/// a high surrogate followed by another unit is read as a pair.
pub open spec fn utf16_decode(u: Seq<u16>) -> Seq<u32>
    decreases u.len(),
{
    if u.len() == 0 {
        Seq::empty()
    } else if 0xD800 <= u[0] < 0xDC00 && u.len() >= 2 {
        seq![(0x10000 + (u[0] - 0xD800) * 0x400 + (u[1] - 0xDC00)) as u32] + utf16_decode(
            u.skip(2),
        )
    } else {
        seq![u[0] as u32] + utf16_decode(u.skip(1))
    }
}

/// The code points of a character sequence.
pub open spec fn code_points(s: Seq<char>) -> Seq<u32> {
    s.map_values(|c: char| c as u32)
}

/// A string handed to CEF: `str_` holds the UTF-16 units followed by a zero
/// unit; `length` counts the units before the zero.
#[allow(non_camel_case_types)]
pub struct cef_string_t {
    pub str_: Vec<u16>,
    pub length: usize,
}

impl cef_string_t {
    /// The buffer holds `length` units and then a zero unit.
    pub open spec fn wf(&self) -> bool {
        &&& self.str_@.len() == self.length + 1
        &&& self.str_@[self.length as int] == 0
    }

    /// The units before the terminating zero.
    pub open spec fn units(&self) -> Seq<u16> {
        self.str_@.subrange(0, self.length as int)
    }

    /// Encodes `s` in UTF-16 and terminates it with a zero unit.
    pub fn new(s: &str) -> (res: Self)
        ensures
            res.wf(),
            res.str_@ == utf16_encode(s@).push(0),
            res.length == utf16_encode(s@).len(),
            res.units() == utf16_encode(s@),
    {
        let mut utf16: Vec<u16> = Vec::new();
        let ghost chars = s@;
        for c in it: s.chars()
            invariant
                it.seq() == chars,
                utf16@ == utf16_encode(chars.take(it.index() as int)),
        {
            let ghost i = it.index();
            push_utf16(&mut utf16, c);
            proof {
                assert(chars.take(i + 1).drop_last() =~= chars.take(i as int));
            }
        }
        proof {
            assert(chars.take(chars.len() as int) =~= chars);
        }
        let len = utf16.len();
        // null terminated
        utf16.push(0);
        proof {
            assert(utf16@.subrange(0, len as int) =~= utf16_encode(chars));
        }
        cef_string_t { str_: utf16, length: len }
    }

    /// A copy of the string, in a buffer of its own.
    pub fn duplicate(&self) -> (res: Self)
        ensures
            res.str_@ == self.str_@,
            res.length == self.length,
    {
        let mut copy: Vec<u16> = Vec::new();
        let mut i: usize = 0;
        while i < self.str_.len()
            invariant
                i <= self.str_@.len(),
                copy@ == self.str_@.subrange(0, i as int),
            decreases self.str_@.len() - i,
        {
            copy.push(self.str_[i]);
            i = i + 1;
            assert(copy@ =~= self.str_@.subrange(0, i as int));
        }
        assert(copy@ =~= self.str_@);
        cef_string_t { str_: copy, length: self.length }
    }
}

/// Appends the UTF-16 units of `c` to `out`.
fn push_utf16(out: &mut Vec<u16>, c: char)
    ensures
        final(out)@ == old(out)@ + utf16_of_char(c),
{
    let v: u32 = c as u32;
    if v < 0x10000 {
        out.push(v as u16);
    } else {
        assert(v <= 0x10FFFF);
        let w: u32 = v - 0x10000;
        out.push((0xD800 + w / 0x400) as u16);
        out.push((0xDC00 + w % 0x400) as u16);
    }
    assert(out@ =~= old(out)@ + utf16_of_char(c));
}

impl Clone for cef_string_t {
    /// A copy of the string, in a buffer of its own.
    fn clone(&self) -> (res: Self)
        ensures
            res.str_@ == self.str_@,
            res.length == self.length,
    {
        self.duplicate()
    }
}

/// Encoding a character in front of a sequence puts its units in front.
pub proof fn lemma_utf16_encode_prepend(c: char, t: Seq<char>)
    ensures
        utf16_encode(seq![c] + t) == utf16_of_char(c) + utf16_encode(t),
    decreases t.len(),
{
    if t.len() == 0 {
        assert(seq![c] + t =~= seq![c]);
        assert(seq![c].drop_last() =~= Seq::<char>::empty());
        assert(utf16_encode(Seq::<char>::empty()) == Seq::<u16>::empty());
        assert(seq![c].last() == c);
        assert(utf16_encode(seq![c]) =~= utf16_of_char(c));
        assert(utf16_of_char(c) + utf16_encode(t) =~= utf16_of_char(c));
    } else {
        lemma_utf16_encode_prepend(c, t.drop_last());
        assert((seq![c] + t).drop_last() =~= seq![c] + t.drop_last());
        assert((seq![c] + t).last() == t.last());
        assert(utf16_encode(seq![c] + t) =~= utf16_of_char(c) + utf16_encode(t));
    }
}

/// Decoding the units of [`cef_string_t::new`] gives back the code points of
/// the string it was made from: the encoding loses nothing.
pub proof fn law_utf16_round_trip(s: Seq<char>)
    ensures
        utf16_decode(utf16_encode(s)) == code_points(s),
    decreases s.len(),
{
    if s.len() == 0 {
        assert(code_points(s) =~= Seq::<u32>::empty());
    } else {
        let c = s[0];
        let rest = s.drop_first();
        assert(s =~= seq![c] + rest);
        lemma_utf16_encode_prepend(c, rest);
        law_utf16_round_trip(rest);
        let u = utf16_encode(s);
        let v = c as u32;
        char_is_scalar(c);
        if v < 0x10000 {
            assert(u.skip(1) =~= utf16_encode(rest));
        } else {
            let w = (v - 0x10000) as u32;
            assert(w / 0x400 * 0x400 + w % 0x400 == w);
            assert(u.skip(2) =~= utf16_encode(rest));
        }
        assert(code_points(s) =~= seq![v] + code_points(rest));
    }
}

/// Different strings make different buffers.
pub proof fn law_new_injective(a: Seq<char>, b: Seq<char>)
    requires
        utf16_encode(a) == utf16_encode(b),
    ensures
        a == b,
{
    law_utf16_round_trip(a);
    law_utf16_round_trip(b);
    assert(code_points(a) == code_points(b));
    assert(a.len() == code_points(a).len() && b.len() == code_points(b).len());
    assert forall|i: int| 0 <= i < a.len() implies a[i] == b[i] by {
        assert(code_points(a)[i] == code_points(b)[i]);
        char_u32_cast(a[i], a[i] as u32);
        char_u32_cast(b[i], b[i] as u32);
    }
    assert(a =~= b);
}

/// Each character's units are its UTF-16 encoding: a character below
/// 0x10000 is the one unit equal to its code point; any other is a high
/// surrogate (in `[0xD800, 0xDC00)`) followed by a low surrogate (in
/// `[0xDC00, 0xE000)`), whose ten-bit payloads give back the code point.
pub proof fn law_utf16_of_char_well_formed(c: char)
    ensures
        (c as u32) < 0x10000 ==> utf16_of_char(c) == seq![(c as u32) as u16] && (c as u32) as u16
            as u32 == c as u32,
        (c as u32) >= 0x10000 ==> ({
            let u = utf16_of_char(c);
            &&& u.len() == 2
            &&& 0xD800 <= u[0] < 0xDC00
            &&& 0xDC00 <= u[1] < 0xE000
            &&& c as u32 == 0x10000 + (u[0] - 0xD800) * 0x400 + (u[1] - 0xDC00)
        }),
{
    char_is_scalar(c);
    let v = c as u32;
    if v >= 0x10000 {
        let w = (v - 0x10000) as u32;
        assert(w / 0x400 * 0x400 + w % 0x400 == w);
        assert(w / 0x400 < 0x400);
    }
}

/// The units of a string are those of its characters, one after another:
/// encoding a concatenation concatenates the encodings.
pub proof fn law_utf16_encode_concat(a: Seq<char>, b: Seq<char>)
    ensures
        utf16_encode(a + b) == utf16_encode(a) + utf16_encode(b),
    decreases b.len(),
{
    if b.len() == 0 {
        assert(a + b =~= a);
        assert(utf16_encode(a) + utf16_encode(b) =~= utf16_encode(a));
    } else {
        law_utf16_encode_concat(a, b.drop_last());
        assert((a + b).drop_last() =~= a + b.drop_last());
        assert((a + b).last() == b.last());
        assert(utf16_encode(a + b) =~= utf16_encode(a) + utf16_encode(b));
    }
}

} // verus!
