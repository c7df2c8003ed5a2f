//! Host text re-encoded as the 16-bit code units that native entry points
//! take, with or without a terminating zero unit.
use vstd::prelude::*;

verus! {

/// The UTF-16 code units of one character: the character itself below
/// U+10000, otherwise a high and a low surrogate.
pub open spec fn utf16_of_char(c: char) -> Seq<u16> {
    let v = c as u32;
    if v < 0x1_0000 {
        seq![v as u16]
    } else {
        let w = (v - 0x1_0000) as u32;
        seq![(0xD800 + w / 0x400) as u16, (0xDC00 + w % 0x400) as u16]
    }
}

/// The UTF-16 encoding of a character sequence.
pub open spec fn utf16_of(s: Seq<char>) -> Seq<u16>
    decreases s.len(),
{
    if s.len() == 0 {
        seq![]
    } else {
        utf16_of(s.drop_last()) + utf16_of_char(s.last())
    }
}

/// The UTF-16 encoding of a character sequence followed by one zero unit.
pub open spec fn utf16_null_of(s: Seq<char>) -> Seq<u16> {
    utf16_of(s).push(0u16)
}

/// Every character lies in the basic multilingual plane.
pub open spec fn in_bmp(s: Seq<char>) -> bool {
    forall|i: int| 0 <= i < s.len() ==> (#[trigger] s[i] as u32) < 0x1_0000
}

/// Appends the UTF-16 encoding of `s` to `out`.
fn push_utf16(s: &str, out: &mut Vec<u16>)
    ensures
        final(out)@ == old(out)@ + utf16_of(s@),
{
    broadcast use vstd::string::axiom_spec_iter;
    for c in it: s.chars()
        invariant
            it.seq() == s@,
            out@ == old(out)@ + utf16_of(s@.subrange(0, it.index() as int)),
    {
        let ghost i = it.index();
        let v = c as u32;
        if v < 0x1_0000 {
            out.push(v as u16);
        } else {
            let w: u32 = v - 0x1_0000;
            out.push((0xD800 + w / 0x400) as u16);
            out.push((0xDC00 + w % 0x400) as u16);
        }
        proof {
            let next = s@.subrange(0, i + 1);
            assert(next.drop_last() =~= s@.subrange(0, i as int));
            assert(next.last() == c);
        }
    }
    assert(s@.subrange(0, s@.len() as int) =~= s@);
}

/// Conversion of host text into native wide text.
pub trait ToWide {
    /// The characters of the text.
    spec fn chars_of(&self) -> Seq<char>;

    /// The UTF-16 code units of the text, unterminated.
    fn to_wide(&self) -> (wide: Vec<u16>)
        ensures
            wide@ == utf16_of(self.chars_of()),
    ;

    /// The UTF-16 code units of the text with one zero unit appended.
    fn to_wide_null(&self) -> (wide: Vec<u16>)
        ensures
            wide@ == utf16_null_of(self.chars_of()),
    ;
}

impl ToWide for str {
    open spec fn chars_of(&self) -> Seq<char> {
        self@
    }

    fn to_wide(&self) -> (wide: Vec<u16>) {
        let mut wide: Vec<u16> = Vec::new();
        push_utf16(self, &mut wide);
        wide
    }

    fn to_wide_null(&self) -> (wide: Vec<u16>) {
        let mut wide: Vec<u16> = Vec::new();
        push_utf16(self, &mut wide);
        wide.push(0);
        wide
    }
}

impl ToWide for String {
    open spec fn chars_of(&self) -> Seq<char> {
        self@
    }

    fn to_wide(&self) -> (wide: Vec<u16>) {
        self.as_str().to_wide()
    }

    fn to_wide_null(&self) -> (wide: Vec<u16>) {
        self.as_str().to_wide_null()
    }
}

/// The terminated encoding is the unterminated one followed by exactly one
/// zero unit.
pub proof fn lemma_null_form_extends(s: Seq<char>)
    ensures
        utf16_null_of(s) == utf16_of(s) + seq![0u16],
{
    assert(utf16_of(s).push(0u16) =~= utf16_of(s) + seq![0u16]);
}

/// Text made only of characters of the basic multilingual plane encodes to
/// one code unit per character.
pub proof fn lemma_bmp_one_unit_each(s: Seq<char>)
    requires
        in_bmp(s),
    ensures
        utf16_of(s).len() == s.len(),
    decreases s.len(),
{
    if s.len() > 0 {
        let t = s.drop_last();
        assert forall|i: int| 0 <= i < t.len() implies (#[trigger] t[i] as u32) < 0x1_0000 by {
            assert(t[i] == s[i]);
        }
        lemma_bmp_one_unit_each(t);
        assert(s.last() == s[s.len() - 1]);
    }
}

} // verus!
