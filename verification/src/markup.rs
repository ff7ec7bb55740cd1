//! The mathematical model of markup generation.
//!
//! Every executable rendering function in this crate promises, in its
//! `ensures` clause, to produce exactly the character sequence given by one
//! of the spec functions below.

use vstd::prelude::*;

verus! {

/// The markup fragment for one attribute: ` name="value"` (with the leading
/// space).
pub open spec fn attr_markup(name: Seq<char>, value: Seq<char>) -> Seq<char> {
    " "@ + name + "=\""@ + value + "\""@
}

/// The markup fragment for an attribute list: the concatenation of one
/// [`attr_markup`] fragment per pair, in order.
pub open spec fn attrs_markup(pairs: Seq<(Seq<char>, Seq<char>)>) -> Seq<char>
    decreases pairs.len(),
{
    if pairs.len() == 0 {
        Seq::empty()
    } else {
        attrs_markup(pairs.drop_last()) + attr_markup(pairs.last().0, pairs.last().1)
    }
}

/// The concatenation of a sequence of already-rendered markup pieces, in
/// order.
pub open spec fn pieces_markup(pieces: Seq<Seq<char>>) -> Seq<char>
    decreases pieces.len(),
{
    if pieces.len() == 0 {
        Seq::empty()
    } else {
        pieces_markup(pieces.drop_last()) + pieces.last()
    }
}

/// A paired tag wrapped around already-rendered content:
/// `<tag attrs>content</tag>`.
pub open spec fn paired_markup(
    tag: Seq<char>,
    attrs: Seq<(Seq<char>, Seq<char>)>,
    content: Seq<char>,
) -> Seq<char> {
    "<"@ + tag + attrs_markup(attrs) + ">"@ + content + "</"@ + tag + ">"@
}

/// A structured element: a self-closing tag when it has no children,
/// otherwise a paired tag around the concatenation of its child pieces.
pub open spec fn element_markup(
    tag: Seq<char>,
    attrs: Seq<(Seq<char>, Seq<char>)>,
    children: Seq<Seq<char>>,
) -> Seq<char> {
    if children.len() == 0 {
        "<"@ + tag + attrs_markup(attrs) + "/>"@
    } else {
        paired_markup(tag, attrs, pieces_markup(children))
    }
}

/// The character for one decimal digit.
pub open spec fn digit_char(d: nat) -> char {
    if d == 0 {
        '0'
    } else if d == 1 {
        '1'
    } else if d == 2 {
        '2'
    } else if d == 3 {
        '3'
    } else if d == 4 {
        '4'
    } else if d == 5 {
        '5'
    } else if d == 6 {
        '6'
    } else if d == 7 {
        '7'
    } else if d == 8 {
        '8'
    } else {
        '9'
    }
}

/// The decimal representation of a natural number, most significant digit
/// first, with no leading zeros (a single `'0'` for zero).
pub open spec fn dec_str(n: nat) -> Seq<char>
    decreases n,
{
    if n < 10 {
        seq![digit_char(n)]
    } else {
        dec_str(n / 10).push(digit_char(n % 10))
    }
}

/// The entity replacement for a single character under HTML escaping.
pub open spec fn escape_char(c: char) -> Seq<char> {
    if c == '"' {
        "&quot;"@
    } else if c == '\'' {
        "&#39;"@
    } else if c == '&' {
        "&amp;"@
    } else if c == '<' {
        "&lt;"@
    } else if c == '>' {
        "&gt;"@
    } else {
        seq![c]
    }
}

/// HTML escaping of a whole character sequence: each character is replaced
/// by [`escape_char`] of it, independently of its neighbours.
pub open spec fn escape_seq(s: Seq<char>) -> Seq<char>
    decreases s.len(),
{
    if s.len() == 0 {
        Seq::empty()
    } else {
        escape_seq(s.drop_last()) + escape_char(s.last())
    }
}

/// Whether a character is left unchanged by HTML escaping.
pub open spec fn is_plain_char(c: char) -> bool {
    c != '"' && c != '\'' && c != '&' && c != '<' && c != '>'
}

/// Escaping alters nothing but the five special characters: a sequence
/// containing none of them escapes to itself.
pub proof fn lemma_escape_plain_unchanged(s: Seq<char>)
    requires
        forall|i: int| 0 <= i < s.len() ==> is_plain_char(#[trigger] s[i]),
    ensures
        escape_seq(s) == s,
    decreases s.len(),
{
    if s.len() == 0 {
        assert(escape_seq(s) =~= s);
    } else {
        lemma_escape_plain_unchanged(s.drop_last());
        assert(is_plain_char(s.last()));
        assert(escape_seq(s) =~= s.drop_last() + seq![s.last()]);
        assert(s.drop_last() + seq![s.last()] =~= s);
    }
}

/// An attribute list renders to exactly one ` name="value"` fragment per
/// pair, concatenated in order: [`attrs_markup`] equals the flattening of
/// the per-pair fragments.
pub proof fn lemma_attrs_markup_one_fragment_per_pair(pairs: Seq<(Seq<char>, Seq<char>)>)
    ensures
        attrs_markup(pairs) == pairs.map_values(
            |p: (Seq<char>, Seq<char>)| attr_markup(p.0, p.1),
        ).flatten(),
    decreases pairs.len(),
{
    let frags = pairs.map_values(|p: (Seq<char>, Seq<char>)| attr_markup(p.0, p.1));
    frags.lemma_flatten_and_flatten_alt_are_equivalent();
    lemma_attrs_markup_flatten_alt(pairs);
}

/// Helper for [`lemma_attrs_markup_one_fragment_per_pair`]: the recursions
/// of [`attrs_markup`] and `flatten_alt` line up step for step.
proof fn lemma_attrs_markup_flatten_alt(pairs: Seq<(Seq<char>, Seq<char>)>)
    ensures
        attrs_markup(pairs) == pairs.map_values(
            |p: (Seq<char>, Seq<char>)| attr_markup(p.0, p.1),
        ).flatten_alt(),
    decreases pairs.len(),
{
    let frags = pairs.map_values(|p: (Seq<char>, Seq<char>)| attr_markup(p.0, p.1));
    if pairs.len() == 0 {
        assert(attrs_markup(pairs) =~= frags.flatten_alt());
    } else {
        lemma_attrs_markup_flatten_alt(pairs.drop_last());
        let prev = pairs.drop_last().map_values(
            |p: (Seq<char>, Seq<char>)| attr_markup(p.0, p.1),
        );
        assert(frags.drop_last() =~= prev);
        assert(frags.last() == attr_markup(pairs.last().0, pairs.last().1));
    }
}

/// Pushing onto a vector pushes the element's deep view onto the vector's
/// deep view.  Stated over two vector values so that callers can relate a
/// vector to its value before a `push`.
pub proof fn lemma_vec_deep_view_push<T: DeepView>(pre: Vec<T>, post: Vec<T>, x: T)
    requires
        post@ == pre@.push(x),
    ensures
        post.deep_view() == pre.deep_view().push(x.deep_view()),
{
    assert forall|j: int| 0 <= j < post@.len() implies
        post.deep_view()[j] == pre.deep_view().push(x.deep_view())[j] by {
        if j < pre@.len() {
            assert(post@[j] == pre@[j]);
        } else {
            assert(post@[j] == x);
        }
    }
    assert(post.deep_view() =~= pre.deep_view().push(x.deep_view()));
}

/// One step of [`attrs_markup`] seen from the front: rendering the first
/// `i + 1` pairs appends the fragment of pair `i` to the rendering of the
/// first `i` pairs.  This is the shape loop invariants need.
pub proof fn lemma_attrs_markup_take_step(pairs: Seq<(Seq<char>, Seq<char>)>, i: int)
    requires
        0 <= i < pairs.len(),
    ensures
        attrs_markup(pairs.take(i + 1)) == attrs_markup(pairs.take(i))
            + attr_markup(pairs[i].0, pairs[i].1),
{
    assert(pairs.take(i + 1).drop_last() =~= pairs.take(i));
    assert(pairs.take(i + 1).last() == pairs[i]);
}

/// One step of [`pieces_markup`] seen from the front.
pub proof fn lemma_pieces_markup_take_step(pieces: Seq<Seq<char>>, i: int)
    requires
        0 <= i < pieces.len(),
    ensures
        pieces_markup(pieces.take(i + 1)) == pieces_markup(pieces.take(i)) + pieces[i],
{
    assert(pieces.take(i + 1).drop_last() =~= pieces.take(i));
    assert(pieces.take(i + 1).last() == pieces[i]);
}

/// Appending one piece to a piece list appends its markup to the rendering.
pub proof fn lemma_pieces_markup_push(pieces: Seq<Seq<char>>, piece: Seq<char>)
    ensures
        pieces_markup(pieces.push(piece)) == pieces_markup(pieces) + piece,
{
    assert(pieces.push(piece).drop_last() =~= pieces);
    assert(pieces.push(piece).last() == piece);
}

} // verus!
