//! An ordered collection of name/value attribute pairs.

use vstd::prelude::*;

verus! {

use crate::markup::{attrs_markup, lemma_attrs_markup_take_step, lemma_vec_deep_view_push};

/// A collection of attributes that can be attached to an HTML tag.
///
/// Pairs render in insertion order, each as a ` name="value"` fragment with
/// a leading space, so that a set with no pairs contributes nothing to the
/// output.  No escaping of quote or ampersand characters is performed by
/// this layer: callers must pre-escape untrusted content, for instance with
/// [`crate::escape_html`].
#[derive(Debug, Clone)]
pub struct Attributes {
    /// The name/value pairs, in insertion order.
    pub pairs: Vec<(String, String)>,
}

impl View for Attributes {
    type V = Seq<(Seq<char>, Seq<char>)>;

    open spec fn view(&self) -> Seq<(Seq<char>, Seq<char>)> {
        self.pairs.deep_view()
    }
}

impl Default for Attributes {
    /// Constructs a set with no attributes, which renders to the empty
    /// string.
    fn default() -> (r: Self)
        ensures
            r@ == Seq::<(Seq<char>, Seq<char>)>::empty(),
    {
        let r = Attributes { pairs: Vec::new() };
        proof {
            assert(r@ =~= Seq::<(Seq<char>, Seq<char>)>::empty());
        }
        r
    }
}

impl Attributes {
    /// Builds a set from a sequence of name/value pairs, kept in order.
    pub fn from(pairs: &Vec<(String, String)>) -> (r: Self)
        ensures
            r@ == pairs.deep_view(),
    {
        Attributes { pairs: crate::elements::clone_pairs(pairs) }
    }

    /// Appends one name/value pair to the set.
    pub fn add(&mut self, name: &str, value: &str)
        ensures
            final(self)@ == old(self)@.push((name@, value@)),
    {
        let ghost pre = self.pairs;
        let k = name.to_owned();
        let v = value.to_owned();
        self.pairs.push((k, v));
        proof {
            lemma_vec_deep_view_push(pre, self.pairs, (k, v));
        }
    }

    /// Renders the set to its markup fragment: one ` name="value"` per pair,
    /// in order, or the empty string for an empty set.
    pub fn render(&self) -> (r: String)
        ensures
            r@ == attrs_markup(self@),
    {
        let mut out = String::new();
        append_attrs(&mut out, &self.pairs);
        out
    }
}

/// Rendering an attribute set is idempotent: any two results of
/// [`Attributes::render`] on the same set are the same string.
pub proof fn lemma_attributes_render_idempotent(a: Attributes, r1: String, r2: String)
    requires
        call_ensures(Attributes::render, (&a,), r1),
        call_ensures(Attributes::render, (&a,), r2),
    ensures
        r1@ == r2@,
{
}

/// Appends the markup fragment of an attribute list onto `out`.
pub(crate) fn append_attrs(out: &mut String, pairs: &Vec<(String, String)>)
    ensures
        final(out)@ == old(out)@ + attrs_markup(pairs.deep_view()),
{
    let n = pairs.len();
    let mut i: usize = 0;
    while i < n
        invariant
            n == pairs.len(),
            i <= n,
            out@ == old(out)@ + attrs_markup(pairs.deep_view().take(i as int)),
        decreases n - i,
    {
        out.append(" ");
        out.append(pairs[i].0.as_str());
        out.append("=\"");
        out.append(pairs[i].1.as_str());
        out.append("\"");
        proof {
            lemma_attrs_markup_take_step(pairs.deep_view(), i as int);
            assert(pairs.deep_view()[i as int] == (pairs[i as int].0@, pairs[i as int].1@));
            assert(out@ =~= old(out)@ + attrs_markup(pairs.deep_view().take(i + 1)));
        }
        i = i + 1;
    }
    proof {
        assert(pairs.deep_view().take(n as int) =~= pairs.deep_view());
    }
}

} // verus!
