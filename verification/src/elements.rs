//! Structured HTML elements: a tag, attributes, and an ordered child list.

use vstd::prelude::*;

verus! {

use crate::Html;
use crate::html_container::HtmlContainer;
use crate::attributes::append_attrs;
use crate::markup::{
    element_markup, pieces_markup, lemma_pieces_markup_take_step, lemma_vec_deep_view_push,
};
use crate::tags::{HtmlTag, tag_str};

/// A structured HTML element, with a tag, attributes, and children.
///
/// Children are stored as their rendered markup pieces, in insertion order;
/// a child is rendered exactly once, when it is attached, and rendering the
/// element concatenates the pieces unchanged.  An element with no children
/// renders as a self-closing tag `<tag attrs/>`; one with children renders
/// as `<tag attrs>` + children + `</tag>`.
#[derive(Debug, Clone)]
pub struct HtmlElement {
    /// The tag to be used for this element.
    pub tag: HtmlTag,
    /// The attributes that will be printed in this element, as
    /// `(name, value)` pairs in insertion order.
    pub attributes: Vec<(String, String)>,
    /// The rendered markup of each child element, in insertion order.
    pub children: Vec<String>,
}

/// A child of an [`HtmlElement`]: either another element, or some raw text.
#[derive(Debug, Clone)]
pub enum HtmlChild {
    /// An element that can have more children of its own.
    Element(HtmlElement),
    /// A raw string that will be appended into the output HTML unchanged.
    Raw(String),
}

impl Html for HtmlElement {
    open spec fn html_spec(&self) -> Seq<char> {
        element_markup(tag_str(self.tag), self.attributes.deep_view(), self.children.deep_view())
    }

    fn to_html_string(&self) -> (r: String) {
        let mut out = String::new();
        out.append("<");
        out.append(self.tag.as_str());
        append_attrs(&mut out, &self.attributes);
        if self.children.len() == 0 {
            out.append("/>");
            proof {
                assert(self.children.deep_view().len() == 0);
                assert(out@ =~= self.html_spec());
            }
        } else {
            out.append(">");
            append_pieces(&mut out, &self.children);
            out.append("</");
            out.append(self.tag.as_str());
            out.append(">");
            proof {
                assert(out@ =~= self.html_spec());
            }
        }
        out
    }
}

impl From<HtmlElement> for HtmlChild {
    fn from(value: HtmlElement) -> (r: Self) {
        HtmlChild::Element(value)
    }
}

impl vstd::std_specs::convert::FromSpecImpl<HtmlElement> for HtmlChild {
    open spec fn obeys_from_spec() -> bool {
        true
    }

    open spec fn from_spec(v: HtmlElement) -> Self {
        HtmlChild::Element(v)
    }
}

impl Html for HtmlChild {
    open spec fn html_spec(&self) -> Seq<char> {
        match self {
            HtmlChild::Element(e) => e.html_spec(),
            HtmlChild::Raw(r) => r@,
        }
    }

    fn to_html_string(&self) -> (r: String) {
        match self {
            HtmlChild::Element(e) => e.to_html_string(),
            HtmlChild::Raw(r) => r.clone(),
        }
    }
}

/// Seamless compatibility between the container interface and structured
/// elements: content added through the container methods is appended as a
/// rendered child piece.
impl HtmlContainer for HtmlElement {
    open spec fn absorbed(self, piece: Seq<char>, post: Self) -> bool {
        post.tag == self.tag
        && post.attributes == self.attributes
        && post.children.deep_view() == self.children.deep_view().push(piece)
    }

    fn add_html<H: Html>(&mut self, html: H) {
        let ghost pre = self.children;
        let piece = html.to_html_string();
        let ghost gp = piece;
        self.children.push(piece);
        proof {
            lemma_vec_deep_view_push(pre, self.children, gp);
        }
    }
}

impl HtmlElement {
    /// Create a new empty HTML element with the given tag.
    pub fn new(tag: HtmlTag) -> (r: Self)
        ensures
            r.tag == tag,
            r.attributes.deep_view() == Seq::<(Seq<char>, Seq<char>)>::empty(),
            r.children.deep_view() == Seq::<Seq<char>>::empty(),
    {
        let r = HtmlElement { tag, attributes: Vec::new(), children: Vec::new() };
        proof {
            assert(r.attributes.deep_view() =~= Seq::<(Seq<char>, Seq<char>)>::empty());
            assert(r.children.deep_view() =~= Seq::<Seq<char>>::empty());
        }
        r
    }

    /// Add a new child to this element.  The child is rendered once and its
    /// markup appended to the child list.
    pub fn add_child(&mut self, content: HtmlChild)
        ensures
            final(self).tag == old(self).tag,
            final(self).attributes == old(self).attributes,
            final(self).children.deep_view()
                == old(self).children.deep_view().push(content.html_spec()),
    {
        let ghost pre = self.children;
        let piece = content.to_html_string();
        let ghost gp = piece;
        self.children.push(piece);
        proof {
            lemma_vec_deep_view_push(pre, self.children, gp);
        }
    }

    /// Consume this element and return it with the new child appended.
    pub fn with_child(self, content: HtmlChild) -> (r: Self)
        ensures
            r.tag == self.tag,
            r.attributes == self.attributes,
            r.children.deep_view() == self.children.deep_view().push(content.html_spec()),
    {
        let mut e = self;
        e.add_child(content);
        e
    }

    /// Add an attribute to this element.
    ///
    /// The attribute is appended after those already present.  If the same
    /// name is given twice it will appear twice in the output.
    pub fn add_attribute(&mut self, k: &str, v: &str)
        ensures
            final(self).tag == old(self).tag,
            final(self).children == old(self).children,
            final(self).attributes.deep_view()
                == old(self).attributes.deep_view().push((k@, v@)),
    {
        let ghost pre = self.attributes;
        let name = k.to_owned();
        let value = v.to_owned();
        let ghost gp = (name, value);
        self.attributes.push((name, value));
        proof {
            lemma_vec_deep_view_push(pre, self.attributes, gp);
        }
    }

    /// Consume this element and return it with the given attribute appended.
    pub fn with_attribute(self, k: &str, v: &str) -> (r: Self)
        ensures
            r.tag == self.tag,
            r.children == self.children,
            r.attributes.deep_view() == self.attributes.deep_view().push((k@, v@)),
    {
        let mut e = self;
        e.add_attribute(k, v);
        e
    }
}

/// Replaces an element's attribute list with a copy of the given pairs.
/// This is the last-write-wins bulk setter: earlier attributes are
/// discarded, not appended to.
pub(crate) fn set_attributes(e: &mut HtmlElement, attributes: &Vec<(String, String)>)
    ensures
        final(e).tag == old(e).tag,
        final(e).children == old(e).children,
        final(e).attributes.deep_view() == attributes.deep_view(),
{
    e.attributes = clone_pairs(attributes);
}

/// Copies a list of attribute pairs.
pub(crate) fn clone_pairs(pairs: &Vec<(String, String)>) -> (r: Vec<(String, String)>)
    ensures
        r.deep_view() == pairs.deep_view(),
{
    let mut copied: Vec<(String, String)> = Vec::new();
    let n = pairs.len();
    let mut i: usize = 0;
    while i < n
        invariant
            n == pairs.len(),
            i <= n,
            copied.deep_view() == pairs.deep_view().take(i as int),
        decreases n - i,
    {
        let ghost pre = copied;
        let k = pairs[i].0.clone();
        let v = pairs[i].1.clone();
        copied.push((k, v));
        proof {
            lemma_vec_deep_view_push(pre, copied, (k, v));
            assert(pairs.deep_view()[i as int]
                == (pairs@[i as int].0@, pairs@[i as int].1@));
            assert(copied.deep_view() =~= pairs.deep_view().take(i + 1));
        }
        i = i + 1;
    }
    proof {
        assert(pairs.deep_view().take(n as int) =~= pairs.deep_view());
    }
    copied
}

/// Appends the concatenation of the given rendered pieces onto `out`.
pub(crate) fn append_pieces(out: &mut String, pieces: &Vec<String>)
    ensures
        final(out)@ == old(out)@ + pieces_markup(pieces.deep_view()),
{
    let n = pieces.len();
    let mut i: usize = 0;
    while i < n
        invariant
            n == pieces.len(),
            i <= n,
            out@ == old(out)@ + pieces_markup(pieces.deep_view().take(i as int)),
        decreases n - i,
    {
        out.append(pieces[i].as_str());
        proof {
            lemma_pieces_markup_take_step(pieces.deep_view(), i as int);
            assert(pieces.deep_view()[i as int] == pieces@[i as int]@);
        }
        i = i + 1;
    }
    proof {
        assert(pieces.deep_view().take(n as int) =~= pieces.deep_view());
    }
}

} // verus!
