//! UTF-16 text for the wide-character system calls.
use vstd::prelude::*;

verus! {

broadcast use vstd::string::axiom_spec_iter;

/// The UTF-16 code units of one character: the code point itself below
/// 0x10000, otherwise a high and a low surrogate.
pub open spec fn utf16_units(c: char) -> Seq<u16> {
    let v: int = c as int;
    if v < 0x10000 {
        seq![v as u16]
    } else {
        let w: int = v - 0x10000;
        seq![(0xD800 + w / 0x400) as u16, (0xDC00 + w % 0x400) as u16]
    }
}

/// The UTF-16 encoding of a text.
pub open spec fn utf16_encode(s: Seq<char>) -> Seq<u16>
    decreases s.len(),
{
    if s.len() == 0 {
        Seq::empty()
    } else {
        utf16_encode(s.drop_last()) + utf16_units(s.last())
    }
}

/// Appends the UTF-16 code units of `c` to `out`.
fn push_utf16(out: &mut Vec<u16>, c: char)
    ensures
        final(out)@ == old(out)@ + utf16_units(c),
{
    let v: u32 = c as u32;
    if v < 0x10000 {
        out.push(v as u16);
    } else {
        let w: u32 = v - 0x10000;
        out.push((0xD800 + w / 0x400) as u16);
        out.push((0xDC00 + w % 0x400) as u16);
    }
}

/// Encodes `s` as UTF-16, appending to `out`.
fn append_utf16(out: &mut Vec<u16>, s: &str)
    ensures
        final(out)@ == old(out)@ + utf16_encode(s@),
{
    let ghost start = out@;
    for c in it: s.chars()
        invariant
            it.seq() == s@,
            out@ == start + utf16_encode(it.seq().take(it.index() as int)),
    {
        let ghost i = it.index() as int;
        proof {
            let t = it.seq().take(i + 1);
            assert(t.drop_last() =~= it.seq().take(i));
            assert(t.last() == c);
        }
        push_utf16(out, c);
        proof {
            assert(start + utf16_encode(it.seq().take(i)) + utf16_units(c) =~= start
                + utf16_encode(it.seq().take(i + 1)));
        }
    }
    proof {
        assert(s@.take(s@.len() as int) =~= s@);
    }
}

/// The UTF-16 encoding of `s` (what `str::encode_utf16` yields).
pub fn encode_utf16(s: &str) -> (w: Vec<u16>)
    ensures
        w@ == utf16_encode(s@),
{
    let mut w: Vec<u16> = Vec::new();
    append_utf16(&mut w, s);
    proof {
        assert(Seq::<u16>::empty() + utf16_encode(s@) =~= utf16_encode(s@));
    }
    w
}

/// The UTF-16 encoding of `s` followed by a terminating 0, the form that the
/// wide-character system calls read.
pub fn encode_utf16_nul(s: &str) -> (w: Vec<u16>)
    ensures
        w@ == utf16_encode(s@).push(0),
{
    let mut w = encode_utf16(s);
    w.push(0);
    w
}

/// How one character is encoded: a character below 0x10000 as the single
/// unit equal to it; any other as a high surrogate (0xD800..0xDBFF) followed by
/// a low surrogate (0xDC00..0xDFFF) from which the character comes back as
/// (high - 0xD800) * 0x400 + (low - 0xDC00) + 0x10000.
pub proof fn lemma_char_encoding(c: char)
    ensures
        (c as int) < 0x10000 ==> utf16_encode(seq![c]).len() == 1 && utf16_encode(seq![c])[0]
            == c as int,
        (c as int) >= 0x10000 ==> {
            let e = utf16_encode(seq![c]);
            &&& e.len() == 2
            &&& 0xD800 <= e[0] < 0xDC00
            &&& 0xDC00 <= e[1] < 0xE000
            &&& (e[0] - 0xD800) * 0x400 + (e[1] - 0xDC00) + 0x10000 == c as int
        },
{
    let s = seq![c];
    assert(s.drop_last() =~= Seq::<char>::empty());
    assert(s.last() == c);
    assert(utf16_encode(s.drop_last()) == Seq::<u16>::empty());
    assert(utf16_encode(s) == utf16_encode(s.drop_last()) + utf16_units(s.last()));
    assert(utf16_encode(s) =~= utf16_units(c));
    let v: int = c as int;
    if v >= 0x10000 {
        let w: int = v - 0x10000;
        assert(0 <= w < 0x100000);
        let q = w / 0x400;
        let r = w % 0x400;
        assert(q * 0x400 + r == w) by (nonlinear_arith)
            requires
                q == w / 0x400,
                r == w % 0x400,
        ;
        assert(0 <= q < 0x400);
        assert(0 <= r < 0x400);
    }
}

/// Encoding a text piece by piece gives the encoding of the whole text.
pub proof fn lemma_encode_append(a: Seq<char>, b: Seq<char>)
    ensures
        utf16_encode(a + b) == utf16_encode(a) + utf16_encode(b),
    decreases b.len(),
{
    if b.len() == 0 {
        assert(a + b =~= a);
        assert(utf16_encode(a) + utf16_encode(b) =~= utf16_encode(a));
    } else {
        lemma_encode_append(a, b.drop_last());
        assert((a + b).drop_last() =~= a + b.drop_last());
        assert((a + b).last() == b.last());
        assert(utf16_encode(a) + utf16_encode(b.drop_last()) + utf16_units(b.last()) =~= utf16_encode(
            a,
        ) + utf16_encode(b));
    }
}

/// A character's units are 0 only for the character 0, and a character
/// takes two units exactly when it lies above 0xFFFF.
pub proof fn lemma_units(c: char)
    ensures
        utf16_units(c).len() == if (c as int) < 0x10000 { 1int } else { 2int },
        (c as int) < 0x10000 ==> utf16_units(c)[0] == c as int,
        c != '\0' ==> forall|i: int| 0 <= i < utf16_units(c).len() ==> utf16_units(c)[i] != 0,
{
    let v: int = c as int;
    if v >= 0x10000 {
        let w: int = v - 0x10000;
        assert(0 <= w < 0x100000);
        assert(0 <= w / 0x400 < 0x400);
        assert(0 <= w % 0x400 < 0x400);
    } else {
        assert(c != '\0' ==> v != 0);
    }
}

/// Each character below 0x10000 takes one unit, equal to its code point, and
/// each other character takes two; so a text without such characters encodes
/// to as many units as it has characters, each equal to its character.
pub proof fn lemma_encode_len(s: Seq<char>)
    ensures
        (forall|i: int| 0 <= i < s.len() ==> (#[trigger] s[i] as int) < 0x10000) ==> {
            &&& utf16_encode(s).len() == s.len()
            &&& forall|i: int| 0 <= i < s.len() ==> utf16_encode(s)[i] == s[i] as int
        },
        utf16_encode(s).len() >= s.len(),
    decreases s.len(),
{
    if s.len() > 0 {
        lemma_encode_len(s.drop_last());
        lemma_units(s.last());
        if forall|i: int| 0 <= i < s.len() ==> (#[trigger] s[i] as int) < 0x10000 {
            assert forall|i: int| 0 <= i < s.drop_last().len() implies (
            #[trigger] s.drop_last()[i] as int) < 0x10000 by {
                assert(s.drop_last()[i] == s[i]);
            }
            assert forall|i: int| 0 <= i < s.len() implies utf16_encode(s)[i] == s[i] as int by {
                if i < s.len() - 1 {
                    assert(s.drop_last()[i] == s[i]);
                }
            }
        }
    }
}

/// A text without the character 0 encodes to units none of which is 0, so in
/// the terminated form the terminator is the first and only 0.
pub proof fn lemma_nul_terminated(s: Seq<char>)
    requires
        forall|i: int| 0 <= i < s.len() ==> s[i] != '\0',
    ensures
        forall|i: int|
            0 <= i < utf16_encode(s).push(0).len() ==> (#[trigger] utf16_encode(s).push(0)[i] == 0
                <==> i == utf16_encode(s).len()),
    decreases s.len(),
{
    if s.len() > 0 {
        let p = s.drop_last();
        assert forall|i: int| 0 <= i < p.len() implies p[i] != '\0' by {
            assert(p[i] == s[i]);
        }
        lemma_nul_terminated(p);
        lemma_units(s.last());
        let e = utf16_encode(s);
        let ep = utf16_encode(p);
        let u = utf16_units(s.last());
        assert(e == ep + u);
        assert forall|i: int| 0 <= i < e.len() implies e[i] != 0 by {
            if i < ep.len() {
                assert(ep.push(0)[i] == ep[i]);
                assert(e[i] == ep[i]);
            } else {
                assert(e[i] == u[i - ep.len()]);
            }
        }
    }
}

} // verus!
