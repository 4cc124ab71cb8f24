//! Escaping of markup-reserved bytes.
//!
//! Escaping works on UTF-8 bytes. Every reserved character is a single byte
//! below `0x80`, and such a byte never occurs inside a multi-byte sequence,
//! so escaping the bytes escapes the characters.

use vstd::prelude::*;

verus! {

pub const AMP: u8 = 0x26;

pub const LT: u8 = 0x3c;

pub const GT: u8 = 0x3e;

pub const QUOT: u8 = 0x22;

pub const APOS: u8 = 0x27;

/// Where a piece of text is placed: between tags, or inside a quoted
/// attribute value. Quotes are reserved only in the latter.
#[derive(Clone, Copy, Debug, PartialEq, Eq, Structural)]
pub enum Place {
    Text,
    Attribute,
}

/// Whether `b` has to be replaced by an entity reference in `place`.
pub open spec fn is_reserved(b: u8, place: Place) -> bool {
    b == AMP || b == LT || b == GT || (place == Place::Attribute && (b == QUOT || b == APOS))
}

/// The bytes that stand for `b` in `place`: an entity reference for a
/// reserved byte, the byte itself otherwise.
pub open spec fn escape_byte(b: u8, place: Place) -> Seq<u8> {
    if b == AMP {
        seq![0x26u8, 0x61u8, 0x6du8, 0x70u8, 0x3bu8]
    } else if b == LT {
        seq![0x26u8, 0x6cu8, 0x74u8, 0x3bu8]
    } else if b == GT {
        seq![0x26u8, 0x67u8, 0x74u8, 0x3bu8]
    } else if place == Place::Attribute && b == QUOT {
        seq![0x26u8, 0x71u8, 0x75u8, 0x6fu8, 0x74u8, 0x3bu8]
    } else if place == Place::Attribute && b == APOS {
        seq![0x26u8, 0x61u8, 0x70u8, 0x6fu8, 0x73u8, 0x3bu8]
    } else {
        seq![b]
    }
}

/// The escaped form of `s`: the escaped forms of its bytes, in order.
pub open spec fn escape(s: Seq<u8>, place: Place) -> Seq<u8>
    decreases s.len(),
{
    if s.len() == 0 {
        Seq::empty()
    } else {
        escape(s.drop_last(), place) + escape_byte(s.last(), place)
    }
}

/// Text without reserved bytes is its own escaped form.
pub proof fn lemma_escape_of_plain_text(s: Seq<u8>, place: Place)
    requires
        forall|i: int| 0 <= i < s.len() ==> !is_reserved(#[trigger] s[i], place),
    ensures
        escape(s, place) == s,
    decreases s.len(),
{
    if s.len() > 0 {
        lemma_escape_of_plain_text(s.drop_last(), place);
        assert(s.drop_last() + seq![s.last()] =~= s);
    }
}

/// Escaped text cannot be taken for markup: it holds no `<` and no `>`, and
/// in an attribute value no quote of either kind.
pub proof fn lemma_escaped_text_holds_no_markup(s: Seq<u8>, place: Place)
    ensures
        forall|i: int|
            0 <= i < escape(s, place).len() ==> {
                let b = #[trigger] escape(s, place)[i];
                b != LT && b != GT && (place == Place::Attribute ==> b != QUOT && b != APOS)
            },
    decreases s.len(),
{
    if s.len() > 0 {
        lemma_escaped_text_holds_no_markup(s.drop_last(), place);
        let before = escape(s.drop_last(), place);
        let last = escape_byte(s.last(), place);
        assert forall|i: int| 0 <= i < escape(s, place).len() implies {
            let b = #[trigger] escape(s, place)[i];
            b != LT && b != GT && (place == Place::Attribute ==> b != QUOT && b != APOS)
        } by {
            if i < before.len() {
                assert(escape(s, place)[i] == before[i]);
            } else {
                assert(escape(s, place)[i] == last[i - before.len()]);
            }
        }
    }
}

/// Appends the escaped form of one byte to `out`.
pub fn push_escaped_byte(out: &mut Vec<u8>, b: u8, place: Place)
    ensures
        final(out)@ == old(out)@ + escape_byte(b, place),
{
    let in_attribute: bool = place == Place::Attribute;
    if b == AMP {
        out.push(0x26);
        out.push(0x61);
        out.push(0x6d);
        out.push(0x70);
        out.push(0x3b);
    } else if b == LT {
        out.push(0x26);
        out.push(0x6c);
        out.push(0x74);
        out.push(0x3b);
    } else if b == GT {
        out.push(0x26);
        out.push(0x67);
        out.push(0x74);
        out.push(0x3b);
    } else if in_attribute && b == QUOT {
        out.push(0x26);
        out.push(0x71);
        out.push(0x75);
        out.push(0x6f);
        out.push(0x74);
        out.push(0x3b);
    } else if in_attribute && b == APOS {
        out.push(0x26);
        out.push(0x61);
        out.push(0x70);
        out.push(0x6f);
        out.push(0x73);
        out.push(0x3b);
    } else {
        out.push(b);
    }
}

/// Appends the escaped form of `s` to `out`.
pub fn push_escaped(out: &mut Vec<u8>, s: &[u8], place: Place)
    ensures
        final(out)@ == old(out)@ + escape(s@, place),
{
    let mut i: usize = 0;
    while i < s.len()
        invariant
            i <= s.len(),
            out@ == old(out)@ + escape(s@.take(i as int), place),
        decreases s.len() - i,
    {
        proof {
            let next = s@.take(i + 1);
            assert(next.drop_last() == s@.take(i as int));
            assert(next.last() == s@[i as int]);
        }
        push_escaped_byte(out, s[i], place);
        i += 1;
    }
    assert(s@.take(i as int) == s@);
}

} // verus!
