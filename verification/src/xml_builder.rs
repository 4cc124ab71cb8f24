//! The markup emitter: assembles nested elements into bytes.
//!
//! The emitter knows nothing of documents. It keeps the bytes written so far,
//! the names of the elements that are still open, and whether the innermost
//! start tag is still unfinished, so that an element without content can be
//! written in the self-closing form.

use vstd::prelude::*;
use vstd::utf8::encode_utf8;
use crate::documents::{markup_of_all, BuildXML};
use crate::escape::{escape, push_escaped, Place, GT, LT, QUOT};

verus! {

pub const SPACE: u8 = 0x20;

pub const SLASH: u8 = 0x2f;

pub const EQUALS: u8 = 0x3d;

/// One attribute inside a start tag: a space, the name, and the escaped
/// value in double quotes.
pub open spec fn attribute(name: Seq<u8>, value: Seq<u8>) -> Seq<u8> {
    seq![SPACE] + name + seq![EQUALS, QUOT] + escape(value, Place::Attribute) + seq![QUOT]
}

/// A whole element. Without content it is the self-closing tag; with
/// content, even empty content, it is a start tag, the content and the
/// matching end tag. `attributes` is what `attribute` gives, repeated.
pub open spec fn element(name: Seq<u8>, attributes: Seq<u8>, content: Option<Seq<u8>>) -> Seq<u8> {
    match content {
        None => seq![LT] + name + attributes + seq![SPACE, SLASH, GT],
        Some(inner) => seq![LT] + name + attributes + seq![GT] + inner + seq![LT, SLASH] + name
            + seq![GT],
    }
}

/// The state of an emitter.
pub struct Markup {
    /// The bytes written so far.
    pub bytes: Seq<u8>,
    /// The names of the elements that are open, outermost first.
    pub path: Seq<Seq<u8>>,
    /// Whether the start tag of the innermost open element is unfinished:
    /// it can still take attributes, and has no content yet.
    pub in_start_tag: bool,
}

impl Markup {
    pub open spec fn empty() -> Markup {
        Markup { bytes: Seq::empty(), path: Seq::empty(), in_start_tag: false }
    }

    /// The bytes once an unfinished start tag has been finished.
    pub open spec fn settled(self) -> Seq<u8> {
        if self.in_start_tag {
            self.bytes + seq![GT]
        } else {
            self.bytes
        }
    }

    pub open spec fn open(self, name: Seq<u8>) -> Markup {
        Markup {
            bytes: self.settled() + seq![LT] + name,
            path: self.path.push(name),
            in_start_tag: true,
        }
    }

    pub open spec fn add_attribute(self, name: Seq<u8>, value: Seq<u8>) -> Markup {
        Markup { bytes: self.bytes + attribute(name, value), ..self }
    }

    /// Content for the innermost open element: already rendered markup.
    pub open spec fn add_content(self, content: Seq<u8>) -> Markup {
        Markup { bytes: self.settled() + content, path: self.path, in_start_tag: false }
    }

    pub open spec fn add_text(self, text: Seq<u8>) -> Markup {
        self.add_content(escape(text, Place::Text))
    }

    pub open spec fn close(self) -> Markup {
        Markup {
            bytes: if self.in_start_tag {
                self.bytes + seq![SPACE, SLASH, GT]
            } else {
                self.bytes + seq![LT, SLASH] + self.path.last() + seq![GT]
            },
            path: self.path.drop_last(),
            in_start_tag: false,
        }
    }
}

/// The attributes of one start tag: `attribute` of each pair of a name and
/// a value, in order.
pub open spec fn attributes(pairs: Seq<(Seq<u8>, Seq<u8>)>) -> Seq<u8>
    decreases pairs.len(),
{
    if pairs.len() == 0 {
        Seq::empty()
    } else {
        attributes(pairs.drop_last()) + attribute(pairs.last().0, pairs.last().1)
    }
}

/// The pieces of `parts` one after the other.
pub open spec fn joined(parts: Seq<Seq<u8>>) -> Seq<u8>
    decreases parts.len(),
{
    if parts.len() == 0 {
        Seq::empty()
    } else {
        joined(parts.drop_last()) + parts.last()
    }
}

impl Markup {
    /// `add_attribute` for each pair of a name and a value, in order.
    pub open spec fn add_attributes(self, pairs: Seq<(Seq<u8>, Seq<u8>)>) -> Markup
        decreases pairs.len(),
    {
        if pairs.len() == 0 {
            self
        } else {
            self.add_attributes(pairs.drop_last()).add_attribute(pairs.last().0, pairs.last().1)
        }
    }

    /// `add_content` for each piece, in order.
    pub open spec fn add_contents(self, pieces: Seq<Seq<u8>>) -> Markup
        decreases pieces.len(),
    {
        if pieces.len() == 0 {
            self
        } else {
            self.add_contents(pieces.drop_last()).add_content(pieces.last())
        }
    }
}

proof fn lemma_add_attributes(m: Markup, pairs: Seq<(Seq<u8>, Seq<u8>)>)
    ensures
        m.add_attributes(pairs) == (Markup { bytes: m.bytes + attributes(pairs), ..m }),
    decreases pairs.len(),
{
    if pairs.len() > 0 {
        lemma_add_attributes(m, pairs.drop_last());
    }
    assert(m.add_attributes(pairs).bytes =~= m.bytes + attributes(pairs));
}

proof fn lemma_add_contents(m: Markup, pieces: Seq<Seq<u8>>)
    requires
        pieces.len() > 0,
    ensures
        m.add_contents(pieces) == m.add_content(joined(pieces)),
    decreases pieces.len(),
{
    let before = pieces.drop_last();
    if before.len() > 0 {
        lemma_add_contents(m, before);
    } else {
        assert(m.add_contents(before) == m);
        assert(joined(before) =~= Seq::<u8>::empty());
    }
    assert(m.add_contents(pieces) == m.add_contents(before).add_content(pieces.last()));
    assert(joined(pieces) == joined(before) + pieces.last());
    assert(m.add_contents(pieces).bytes =~= m.settled() + joined(pieces));
}

/// Tags nest: an element that is opened, given its attributes and its
/// content and then closed is one piece of content for what encloses it,
/// and the same elements are open after it as before. The piece is the
/// self-closing tag where no content was added, and start tag, content and
/// end tag of the same name otherwise.
pub proof fn lemma_element_is_content(
    m: Markup,
    name: Seq<u8>,
    pairs: Seq<(Seq<u8>, Seq<u8>)>,
    pieces: Seq<Seq<u8>>,
)
    ensures
        m.open(name).add_attributes(pairs).add_contents(pieces).close() == m.add_content(
            element(
                name,
                attributes(pairs),
                if pieces.len() == 0 {
                    None
                } else {
                    Some(joined(pieces))
                },
            ),
        ),
{
    let opened = m.open(name).add_attributes(pairs);
    lemma_add_attributes(m.open(name), pairs);
    let closed = opened.add_contents(pieces).close();
    let content = if pieces.len() == 0 {
        None
    } else {
        Some(joined(pieces))
    };
    let expected = m.add_content(element(name, attributes(pairs), content));
    if pieces.len() > 0 {
        lemma_add_contents(opened, pieces);
    }
    assert(closed.path =~= expected.path);
    assert(closed.bytes =~= expected.bytes);
}

/// The emitter.
pub struct XMLBuilder {
    buf: Vec<u8>,
    path: Vec<Vec<u8>>,
    in_start_tag: bool,
}

impl View for XMLBuilder {
    type V = Markup;

    closed spec fn view(&self) -> Markup {
        Markup {
            bytes: self.buf@,
            path: self.path@.map_values(|name: Vec<u8>| name@),
            in_start_tag: self.in_start_tag,
        }
    }
}

fn push_all(out: &mut Vec<u8>, s: &[u8])
    ensures
        final(out)@ == old(out)@ + s@,
{
    let mut i: usize = 0;
    while i < s.len()
        invariant
            i <= s.len(),
            out@ == old(out)@ + s@.take(i as int),
        decreases s.len() - i,
    {
        out.push(s[i]);
        i += 1;
        assert(s@.take(i as int) == s@.take(i - 1).push(s@[i - 1]));
    }
    assert(s@.take(i as int) == s@);
}

impl XMLBuilder {
    pub fn new() -> (b: XMLBuilder)
        ensures
            b@ == Markup::empty(),
    {
        let b = XMLBuilder { buf: Vec::new(), path: Vec::new(), in_start_tag: false };
        assert(b@.path == Seq::<Seq<u8>>::empty());
        b
    }

    fn settle(&mut self)
        ensures
            final(self)@ == (Markup { bytes: old(self)@.settled(), in_start_tag: false, ..old(self)@ }),
    {
        if self.in_start_tag {
            self.buf.push(GT);
            self.in_start_tag = false;
        }
        assert(self@.bytes == old(self)@.settled());
    }

    /// Begins an element named `tag` inside the innermost open one.
    pub fn open(self, tag: &str) -> (b: XMLBuilder)
        ensures
            b@ == self@.open(encode_utf8(tag@)),
    {
        let mut b = self;
        b.settle();
        b.buf.push(LT);
        push_all(&mut b.buf, tag.as_bytes());
        let mut name: Vec<u8> = Vec::new();
        push_all(&mut name, tag.as_bytes());
        b.path.push(name);
        b.in_start_tag = true;
        assert(b@.path == self@.path.push(encode_utf8(tag@)));
        assert(b@.bytes == self@.settled() + seq![LT] + encode_utf8(tag@));
        b
    }

    /// Attaches an attribute to the innermost open element, which must not
    /// have any content yet. The value is escaped.
    pub fn add_attribute(self, name: &str, value: &str) -> (b: XMLBuilder)
        requires
            self@.in_start_tag,
        ensures
            b@ == self@.add_attribute(encode_utf8(name@), encode_utf8(value@)),
    {
        let mut b = self;
        b.buf.push(SPACE);
        push_all(&mut b.buf, name.as_bytes());
        b.buf.push(EQUALS);
        b.buf.push(QUOT);
        push_escaped(&mut b.buf, value.as_bytes(), Place::Attribute);
        b.buf.push(QUOT);
        assert(b@.bytes == self@.bytes + attribute(encode_utf8(name@), encode_utf8(value@)));
        b
    }

    /// Adds character data to the innermost open element, escaped.
    pub fn add_text(self, text: &str) -> (b: XMLBuilder)
        ensures
            b@ == self@.add_text(encode_utf8(text@)),
    {
        let mut b = self;
        b.settle();
        push_escaped(&mut b.buf, text.as_bytes(), Place::Text);
        b
    }

    /// Renders `child` and adds its markup as content.
    pub fn add_child<T: BuildXML>(self, child: &T) -> (b: XMLBuilder)
        ensures
            b@ == self@.add_content(child.markup()),
    {
        let mut b = self;
        b.settle();
        let rendered = child.build();
        push_all(&mut b.buf, rendered.as_slice());
        b
    }

    /// As `add_child` for a child that is there; for one that is absent the
    /// emitter stays as it is, so that the element can still self-close.
    pub fn add_optional_child<T: BuildXML>(self, child: &Option<T>) -> (b: XMLBuilder)
        ensures
            b@ == match *child {
                Some(c) => self@.add_content(c.markup()),
                None => self@,
            },
    {
        match child {
            Some(c) => self.add_child(c),
            None => self,
        }
    }

    /// Renders each child in order and adds the markup as content. Without
    /// children the emitter stays as it is.
    pub fn add_children<T: BuildXML>(self, children: &Vec<T>) -> (b: XMLBuilder)
        ensures
            b@ == if children@.len() == 0 {
                self@
            } else {
                self@.add_content(markup_of_all(children@))
            },
    {
        let mut b = self;
        let mut i: usize = 0;
        while i < children.len()
            invariant
                i <= children.len(),
                b@ == if i == 0 {
                    self@
                } else {
                    self@.add_content(markup_of_all(children@.take(i as int)))
                },
            decreases children.len() - i,
        {
            proof {
                let next = children@.take(i + 1);
                assert(next.drop_last() == children@.take(i as int));
                assert(next.last() == children@[i as int]);
                assert(markup_of_all(children@.take(0)) == Seq::<u8>::empty());
            }
            b = b.add_child(&children[i]);
            i += 1;
            assert(b@.bytes == self@.settled() + markup_of_all(children@.take(i as int)));
        }
        assert(children@.take(i as int) == children@);
        b
    }

    /// Ends the innermost open element: the self-closing form where it has
    /// no content, the matching end tag otherwise.
    pub fn close(self) -> (b: XMLBuilder)
        requires
            self@.path.len() > 0,
        ensures
            b@ == self@.close(),
    {
        let mut b = self;
        let name_opt = b.path.pop();
        if b.in_start_tag {
            b.buf.push(SPACE);
            b.buf.push(SLASH);
            b.buf.push(GT);
        } else {
            b.buf.push(LT);
            b.buf.push(SLASH);
            match name_opt {
                Some(name) => {
                    push_all(&mut b.buf, name.as_slice());
                },
                None => {},
            }
            b.buf.push(GT);
        }
        b.in_start_tag = false;
        assert(b@.path == self@.path.drop_last());
        assert(b@.bytes == self@.close().bytes);
        b
    }

    /// The bytes written.
    pub fn build(self) -> (out: Vec<u8>)
        ensures
            out@ == self@.bytes,
    {
        self.buf
    }
}

} // verus!
