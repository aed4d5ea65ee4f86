//! A small XML element tree and its text form.
use vstd::prelude::*;

use crate::text::push_char;

verus! {

/// The value of an element: its name, its attributes in the order they
/// were set, its text and its child elements.
pub struct XmlNode {
    pub name: Seq<char>,
    pub attributes: Seq<(Seq<char>, Seq<char>)>,
    pub text: Option<Seq<char>>,
    pub children: Seq<XmlNode>,
}

/// An element with no attributes, no text and no children.
pub open spec fn empty_node(name: Seq<char>) -> XmlNode {
    XmlNode { name, attributes: Seq::empty(), text: None, children: Seq::empty() }
}

/// An XML element.
#[derive(Debug)]
pub struct XmlElement {
    pub name: String,
    pub attributes: Vec<(String, String)>,
    pub text: Option<String>,
    pub children: Vec<XmlElement>,
}

impl XmlElement {
    /// The value of the element.
    pub open spec fn node(&self) -> XmlNode
        decreases self,
    {
        XmlNode {
            name: self.name@,
            attributes: self.attributes.deep_view(),
            text: self.text.deep_view(),
            children: Seq::new(
                self.children@.len(),
                |i: int|
                    if 0 <= i < self.children@.len() {
                        self.children@[i].node()
                    } else {
                        empty_node(Seq::empty())
                    },
            ),
        }
    }
}

/// The values of a list of elements.
pub open spec fn nodes_of(v: Seq<XmlElement>) -> Seq<XmlNode> {
    v.map_values(|e: XmlElement| e.node())
}

/// The text that stands for one character: `&`, `<` and `>` (and `"` in an
/// attribute value) are written as entities. A carriage return (and a line
/// feed or a tab in an attribute value) is written as a character
/// reference, so that an XML parser's line-end and attribute-value
/// normalization leaves it as it is.
pub open spec fn escape_char(c: char, in_attribute: bool) -> Seq<char> {
    if c == '&' {
        seq!['&', 'a', 'm', 'p', ';']
    } else if c == '<' {
        seq!['&', 'l', 't', ';']
    } else if c == '>' {
        seq!['&', 'g', 't', ';']
    } else if in_attribute && c == '"' {
        seq!['&', 'q', 'u', 'o', 't', ';']
    } else if c == '\r' {
        seq!['&', '#', '1', '3', ';']
    } else if in_attribute && c == '\n' {
        seq!['&', '#', '1', '0', ';']
    } else if in_attribute && c == '\t' {
        seq!['&', '#', '9', ';']
    } else {
        seq![c]
    }
}

/// The escaped form of a text.
pub open spec fn escape(s: Seq<char>, in_attribute: bool) -> Seq<char>
    decreases s.len(),
{
    if s.len() == 0 {
        Seq::empty()
    } else {
        escape(s.drop_last(), in_attribute) + escape_char(s.last(), in_attribute)
    }
}

/// Whether `s` begins with `p`.
pub open spec fn starts_with(s: Seq<char>, p: Seq<char>) -> bool {
    p.len() <= s.len() && s.take(p.len() as int) == p
}

/// Reads escaped text back: each entity and character reference written by
/// `escape` stands for its character again.
pub open spec fn unescape(s: Seq<char>) -> Seq<char>
    decreases s.len(),
{
    if s.len() == 0 {
        Seq::empty()
    } else if starts_with(s, seq!['&', 'a', 'm', 'p', ';']) {
        seq!['&'] + unescape(s.skip(5))
    } else if starts_with(s, seq!['&', 'l', 't', ';']) {
        seq!['<'] + unescape(s.skip(4))
    } else if starts_with(s, seq!['&', 'g', 't', ';']) {
        seq!['>'] + unescape(s.skip(4))
    } else if starts_with(s, seq!['&', 'q', 'u', 'o', 't', ';']) {
        seq!['"'] + unescape(s.skip(6))
    } else if starts_with(s, seq!['&', '#', '1', '3', ';']) {
        seq!['\r'] + unescape(s.skip(5))
    } else if starts_with(s, seq!['&', '#', '1', '0', ';']) {
        seq!['\n'] + unescape(s.skip(5))
    } else if starts_with(s, seq!['&', '#', '9', ';']) {
        seq!['\t'] + unescape(s.skip(4))
    } else {
        seq![s[0]] + unescape(s.skip(1))
    }
}

proof fn lemma_escape_concat(a: Seq<char>, b: Seq<char>, m: bool)
    ensures
        escape(a + b, m) == escape(a, m) + escape(b, m),
    decreases b.len(),
{
    if b.len() == 0 {
        assert(a + b =~= a);
        assert(escape(a, m) + escape(b, m) =~= escape(a, m));
    } else {
        lemma_escape_concat(a, b.drop_last(), m);
        assert((a + b).drop_last() =~= a + b.drop_last());
        assert((a + b).last() == b.last());
        assert(escape(a + b, m) =~= escape(a, m) + escape(b, m));
    }
}

/// `s` does not begin with `p` where they differ at `i`.
proof fn lemma_not_prefix(s: Seq<char>, p: Seq<char>, i: int)
    requires
        0 <= i < p.len(),
        i < s.len(),
        s[i] != p[i],
    ensures
        !starts_with(s, p),
{
    if starts_with(s, p) {
        assert(s.take(p.len() as int)[i] == s[i]);
    }
}

proof fn lemma_unescape_first(c: char, rest: Seq<char>, m: bool)
    ensures
        unescape(escape_char(c, m) + rest) == seq![c] + unescape(rest),
{
    let e = escape_char(c, m);
    let s = e + rest;
    let amp = seq!['&', 'a', 'm', 'p', ';'];
    let lt = seq!['&', 'l', 't', ';'];
    let gt = seq!['&', 'g', 't', ';'];
    let quot = seq!['&', 'q', 'u', 'o', 't', ';'];
    let cr = seq!['&', '#', '1', '3', ';'];
    let lf = seq!['&', '#', '1', '0', ';'];
    let tab = seq!['&', '#', '9', ';'];
    assert forall|i: int| 0 <= i < e.len() implies s[i] == e[i] by {}
    if e.len() == 1 {
        assert(e[0] == c && c != '&');
        lemma_not_prefix(s, amp, 0);
        lemma_not_prefix(s, lt, 0);
        lemma_not_prefix(s, gt, 0);
        lemma_not_prefix(s, quot, 0);
        lemma_not_prefix(s, cr, 0);
        lemma_not_prefix(s, lf, 0);
        lemma_not_prefix(s, tab, 0);
        assert(s.skip(1) =~= rest);
    } else {
        assert(s.take(e.len() as int) =~= e);
        assert(s.skip(e.len() as int) =~= rest);
        if e[1] != 'a' {
            lemma_not_prefix(s, amp, 1);
        }
        if e[1] != 'l' {
            lemma_not_prefix(s, lt, 1);
        }
        if e[1] != 'g' {
            lemma_not_prefix(s, gt, 1);
        }
        if e[1] != 'q' {
            lemma_not_prefix(s, quot, 1);
        }
        if e == lf || e == tab {
            lemma_not_prefix(s, cr, if e == lf { 3 } else { 2 });
        }
        if e == tab {
            lemma_not_prefix(s, lf, 2);
        }
    }
}

/// Escaped text reads back as the text itself under `unescape`: every
/// character written by `escape`, entity or reference, reads back as the
/// character it stands for.
pub proof fn lemma_escape_roundtrip(s: Seq<char>, in_attribute: bool)
    ensures
        unescape(escape(s, in_attribute)) == s,
    decreases s.len(),
{
    if s.len() > 0 {
        let head = seq![s[0]];
        let tail = s.skip(1);
        assert(s =~= head + tail);
        lemma_escape_concat(head, tail, in_attribute);
        assert(head.drop_last() =~= Seq::<char>::empty());
        assert(escape(head.drop_last(), in_attribute) =~= Seq::<char>::empty());
        assert(escape(head, in_attribute) =~= escape_char(s[0], in_attribute));
        lemma_escape_roundtrip(tail, in_attribute);
        lemma_unescape_first(s[0], escape(tail, in_attribute), in_attribute);
        assert(unescape(escape(s, in_attribute)) =~= head + tail);
    }
}

/// The attributes as written inside a start tag: ` key="value"` each.
pub open spec fn attributes_xml(a: Seq<(Seq<char>, Seq<char>)>) -> Seq<char>
    decreases a.len(),
{
    if a.len() == 0 {
        Seq::empty()
    } else {
        attributes_xml(a.drop_last()) + seq![' '] + a.last().0 + seq!['=', '"'] + escape(
            a.last().1,
            true,
        ) + seq!['"']
    }
}

/// The XML text of an element: an empty element is written `<name .../>`,
/// any other as `<name ...>text children</name>`.
pub open spec fn xml_of(e: XmlNode) -> Seq<char>
    decreases e, 1int,
{
    let open = seq!['<'] + e.name + attributes_xml(e.attributes);
    if e.text is None && e.children.len() == 0 {
        open + seq!['/', '>']
    } else {
        let text = match e.text {
            Some(t) => escape(t, false),
            None => Seq::empty(),
        };
        open + seq!['>'] + text + children_xml(e.children) + seq!['<', '/'] + e.name + seq!['>']
    }
}

/// The XML text of a list of elements, one after the other.
pub open spec fn children_xml(cs: Seq<XmlNode>) -> Seq<char>
    decreases cs, 0int,
{
    if cs.len() == 0 {
        Seq::empty()
    } else {
        children_xml(cs.drop_last()) + xml_of(cs.last())
    }
}

/// Appends the escaped form of `s` to `out`.
fn write_escaped(out: &mut String, s: &str, in_attribute: bool)
    ensures
        final(out)@ == old(out)@ + escape(s@, in_attribute),
{
    let n = s.unicode_len();
    let mut i: usize = 0;
    while i < n
        invariant
            n == s@.len(),
            i <= n,
            out@ == old(out)@ + escape(s@.take(i as int), in_attribute),
        decreases n - i,
    {
        let c = s.get_char(i);
        let ghost before = out@;
        if c == '&' {
            out.append("&amp;");
        } else if c == '<' {
            out.append("&lt;");
        } else if c == '>' {
            out.append("&gt;");
        } else if in_attribute && c == '"' {
            out.append("&quot;");
        } else if c == '\r' {
            out.append("&#13;");
        } else if in_attribute && c == '\n' {
            out.append("&#10;");
        } else if in_attribute && c == '\t' {
            out.append("&#9;");
        } else {
            push_char(out, c);
        }
        proof {
            reveal_strlit("&amp;");
            reveal_strlit("&lt;");
            reveal_strlit("&gt;");
            reveal_strlit("&quot;");
            reveal_strlit("&#13;");
            reveal_strlit("&#10;");
            reveal_strlit("&#9;");
            assert(out@ =~= before + escape_char(c, in_attribute));
            assert(s@.take(i + 1).drop_last() =~= s@.take(i as int));
            assert(s@.take(i + 1).last() == c);
        }
        i = i + 1;
    }
    assert(s@.take(n as int) =~= s@);
}

/// Appends the attributes of a start tag to `out`.
fn write_attributes(out: &mut String, a: &Vec<(String, String)>)
    ensures
        final(out)@ == old(out)@ + attributes_xml(a.deep_view()),
{
    let mut i: usize = 0;
    while i < a.len()
        invariant
            i <= a.len(),
            out@ == old(out)@ + attributes_xml(a.deep_view().take(i as int)),
        decreases a.len() - i,
    {
        let ghost before = out@;
        push_char(out, ' ');
        out.append(a[i].0.as_str());
        push_char(out, '=');
        push_char(out, '"');
        write_escaped(out, a[i].1.as_str(), true);
        push_char(out, '"');
        proof {
            let t = a.deep_view().take(i + 1);
            assert(t.drop_last() =~= a.deep_view().take(i as int));
            assert(t.last() == a.deep_view()[i as int]);
            assert(out@ =~= before + seq![' '] + a[i as int].0@ + seq!['=', '"'] + escape(
                a[i as int].1@,
                true,
            ) + seq!['"']);
        }
        i = i + 1;
    }
    assert(a.deep_view().take(a.len() as int) =~= a.deep_view());
}

/// Appends the XML text of `e` to `out`.
fn write_element(out: &mut String, e: &XmlElement)
    ensures
        final(out)@ == old(out)@ + xml_of(e.node()),
    decreases e,
{
    let ghost start = out@;
    push_char(out, '<');
    out.append(e.name.as_str());
    write_attributes(out, &e.attributes);
    let ghost open = seq!['<'] + e.name@ + attributes_xml(e.attributes.deep_view());
    assert(out@ =~= start + open);
    if e.text.is_none() && e.children.len() == 0 {
        push_char(out, '/');
        push_char(out, '>');
        assert(out@ =~= start + open + seq!['/', '>']);
    } else {
        push_char(out, '>');
        match &e.text {
            Some(t) => write_escaped(out, t.as_str(), false),
            None => {},
        }
        let ghost text = match e.node().text {
            Some(t) => escape(t, false),
            None => Seq::<char>::empty(),
        };
        assert(out@ =~= start + open + seq!['>'] + text);
        let ghost cs = e.node().children;
        let mut i: usize = 0;
        while i < e.children.len()
            invariant
                i <= e.children.len(),
                cs == e.node().children,
                cs.len() == e.children.len(),
                out@ == start + open + seq!['>'] + text + children_xml(cs.take(i as int)),
            decreases e.children.len() - i,
        {
            let ghost before = out@;
            write_element(out, &e.children[i]);
            proof {
                let t = cs.take(i + 1);
                assert(t.drop_last() =~= cs.take(i as int));
                assert(t.last() == e.children@[i as int].node());
                assert(out@ =~= before + xml_of(e.children@[i as int].node()));
            }
            i = i + 1;
        }
        assert(cs.take(cs.len() as int) =~= cs);
        push_char(out, '<');
        push_char(out, '/');
        out.append(e.name.as_str());
        push_char(out, '>');
        assert(out@ =~= start + open + seq!['>'] + text + children_xml(cs) + seq!['<', '/']
            + e.name@ + seq!['>']);
    }
}

impl XmlElement {
    /// An element with the given name and nothing in it.
    pub fn new(name: &str) -> (r: Self)
        ensures
            r.node() == empty_node(name@),
    {
        let r = XmlElement {
            name: String::from_str(name),
            attributes: Vec::new(),
            text: None,
            children: Vec::new(),
        };
        assert(r.node().children =~= Seq::<XmlNode>::empty());
        assert(r.node().attributes =~= Seq::<(Seq<char>, Seq<char>)>::empty());
        r
    }

    /// Adds an attribute after the ones already set.
    pub fn set_attribute(&mut self, key: &str, value: &str)
        ensures
            final(self).node() == (XmlNode {
                attributes: old(self).node().attributes.push((key@, value@)),
                ..old(self).node()
            }),
    {
        self.attributes.push((String::from_str(key), String::from_str(value)));
        assert(final(self).node().attributes =~= old(self).node().attributes.push((key@, value@)));
        assert(final(self).node().children =~= old(self).node().children);
    }

    /// Sets the text inside the element.
    pub fn set_inner_text(&mut self, text: &str)
        ensures
            final(self).node() == (XmlNode { text: Some(text@), ..old(self).node() }),
    {
        self.text = Some(String::from_str(text));
        assert(final(self).node().children =~= old(self).node().children);
    }

    /// Adds a child element after the ones already there.
    pub fn append_child(&mut self, child: XmlElement)
        ensures
            final(self).node() == (XmlNode {
                children: old(self).node().children.push(child.node()),
                ..old(self).node()
            }),
    {
        self.children.push(child);
        assert(final(self).node().children =~= old(self).node().children.push(child.node()));
    }

    /// The XML text of the element.
    pub fn to_xml(&self) -> (r: String)
        ensures
            r@ == xml_of(self.node()),
    {
        let mut out = String::new();
        write_element(&mut out, self);
        assert(out@ =~= xml_of(self.node()));
        out
    }
}

/// An XML document: at most one root element.
#[derive(Debug)]
pub struct XmlDocument {
    pub root: Option<XmlElement>,
}

impl XmlDocument {
    /// A document with no element.
    pub fn new() -> (r: Self)
        ensures
            r.root is None,
    {
        XmlDocument { root: None }
    }

    /// An element with the given name, not yet placed in the document.
    pub fn create_element(&self, name: &str) -> (r: XmlElement)
        ensures
            r.node() == empty_node(name@),
    {
        XmlElement::new(name)
    }

    /// Makes `root` the root element of a document that has none yet: a
    /// document holds one root element.
    pub fn append_child(&mut self, root: XmlElement)
        requires
            old(self).root is None,
        ensures
            final(self).root == Some(root),
    {
        self.root = Some(root);
    }

    /// The XML text of the document: that of its root, or nothing.
    pub fn get_xml(&self) -> (r: String)
        ensures
            r@ == match self.root {
                Some(e) => xml_of(e.node()),
                None => Seq::<char>::empty(),
            },
    {
        match &self.root {
            Some(e) => e.to_xml(),
            None => String::new(),
        }
    }
}

} // verus!
