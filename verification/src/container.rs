//! Containers: nodes holding an ordered sequence of child nodes, with
//! tag-specific wrapping rules for lists.

use vstd::prelude::*;

verus! {

use crate::Html;
use crate::HtmlContainer;
use crate::elements::{HtmlElement, set_attributes};
use crate::markup::{attrs_markup, pieces_markup};
use crate::tags::{HtmlTag, tag_str};

/// The different types of HTML containers that can be added to the page.
#[derive(Debug, PartialEq, Eq, Structural, PartialOrd, Ord, Clone, Copy)]
pub enum ContainerType {
    /// Corresponds to `<address>` tags
    Address,
    /// Corresponds to `<article>` tags
    Article,
    /// Corresponds to `<div>` tags
    ///
    /// This type is also the default for `Container`s
    Div,
    /// Corresponds to `<footer>` tags
    Footer,
    /// Corresponds to `<header>` tags
    Header,
    /// Corresponds to `<main>` tags
    Main,
    /// Corresponds to `<ol>` tags
    OrderedList,
    /// Corresponds to `<ul>` tags
    UnorderedList,
    /// Corresponds to `<nav>` tags
    Nav,
    /// Corresponds to `<section>` tags
    Section,
}

impl Default for ContainerType {
    /// The default container type is a `<div>`.
    fn default() -> (r: Self)
        ensures
            r == ContainerType::Div,
    {
        ContainerType::Div
    }
}

/// The HTML tag that each container type corresponds to.
pub open spec fn container_tag(t: ContainerType) -> HtmlTag {
    match t {
        ContainerType::Address => HtmlTag::Address,
        ContainerType::Article => HtmlTag::Article,
        ContainerType::Div => HtmlTag::Div,
        ContainerType::Footer => HtmlTag::Footer,
        ContainerType::Header => HtmlTag::Header,
        ContainerType::Main => HtmlTag::Main,
        ContainerType::OrderedList => HtmlTag::OrderedList,
        ContainerType::UnorderedList => HtmlTag::UnorderedList,
        ContainerType::Nav => HtmlTag::Navigation,
        ContainerType::Section => HtmlTag::Section,
    }
}

impl From<ContainerType> for HtmlTag {
    fn from(value: ContainerType) -> (r: Self) {
        match value {
            ContainerType::Address => HtmlTag::Address,
            ContainerType::Article => HtmlTag::Article,
            ContainerType::Div => HtmlTag::Div,
            ContainerType::Footer => HtmlTag::Footer,
            ContainerType::Header => HtmlTag::Header,
            ContainerType::Main => HtmlTag::Main,
            ContainerType::OrderedList => HtmlTag::OrderedList,
            ContainerType::UnorderedList => HtmlTag::UnorderedList,
            ContainerType::Nav => HtmlTag::Navigation,
            ContainerType::Section => HtmlTag::Section,
        }
    }
}

impl vstd::std_specs::convert::FromSpecImpl<ContainerType> for HtmlTag {
    open spec fn obeys_from_spec() -> bool {
        true
    }

    open spec fn from_spec(t: ContainerType) -> Self {
        container_tag(t)
    }
}

/// Whether a tag is a list, whose children are wrapped in list-item tags
/// when rendered.
pub open spec fn is_list_tag(tag: HtmlTag) -> bool {
    tag == HtmlTag::OrderedList || tag == HtmlTag::UnorderedList
}

/// A markup piece wrapped in a list-item tag pair: `<li>piece</li>`.
pub open spec fn list_item_piece(piece: Seq<char>) -> Seq<char> {
    "<li>"@ + piece + "</li>"@
}

/// A container for HTML elements.
///
/// A `Container` holds other HTML elements, and guarantees that they render
/// in the same order as they were added.  When the container's type is
/// [`ContainerType::OrderedList`] or [`ContainerType::UnorderedList`],
/// every piece of content added through the [`HtmlContainer`] interface is
/// wrapped in a `<li>` tag pair, exactly once, at the moment it is added;
/// for every other container type content is added unchanged.
///
/// `Container` elements can be nested inside each other.
#[derive(Debug, Clone)]
pub struct Container(pub HtmlElement);

impl Default for Container {
    /// The default container is an empty `<div>`.
    fn default() -> (r: Self)
        ensures
            r.0.tag == HtmlTag::Div,
            r.0.attributes.deep_view() == Seq::<(Seq<char>, Seq<char>)>::empty(),
            r.0.children.deep_view() == Seq::<Seq<char>>::empty(),
    {
        Container::new(ContainerType::Div)
    }
}

impl Html for Container {
    open spec fn html_spec(&self) -> Seq<char> {
        self.0.html_spec()
    }

    fn to_html_string(&self) -> (r: String) {
        self.0.to_html_string()
    }
}

impl HtmlContainer for Container {
    /// List containers wrap each absorbed piece in a list-item tag pair,
    /// exactly once; all other containers absorb the piece unchanged.
    open spec fn absorbed(self, piece: Seq<char>, post: Self) -> bool {
        if is_list_tag(self.0.tag) {
            self.0.absorbed(list_item_piece(piece), post.0)
        } else {
            self.0.absorbed(piece, post.0)
        }
    }

    fn add_html<H: Html>(&mut self, html: H) {
        match self.0.tag {
            HtmlTag::OrderedList | HtmlTag::UnorderedList => {
                let mut item = HtmlElement::new(HtmlTag::ListElement);
                item.add_html(html);
                let piece = item.to_html_string();
                proof {
                    assert(item.children.deep_view().len() == 1);
                    lemma_single_child_element_markup(item);
                }
                self.0.add_html(piece);
            },
            _ => {
                self.0.add_html(html);
            },
        }
    }
}

/// A list-item element holding one rendered piece and no attributes renders
/// to exactly `<li>piece</li>`.
proof fn lemma_single_child_element_markup(item: HtmlElement)
    requires
        item.tag == HtmlTag::ListElement,
        item.attributes.deep_view() == Seq::<(Seq<char>, Seq<char>)>::empty(),
        item.children.deep_view().len() == 1,
    ensures
        item.html_spec() == list_item_piece(item.children.deep_view()[0]),
{
    reveal_strlit("li");
    reveal_strlit("<li>");
    reveal_strlit("</li>");
    reveal_strlit("<");
    reveal_strlit(">");
    reveal_strlit("</");
    let pieces = item.children.deep_view();
    let attrs = item.attributes.deep_view();
    let tag = tag_str(HtmlTag::ListElement);
    assert(pieces.drop_last() =~= Seq::<Seq<char>>::empty());
    assert(pieces_markup(pieces) == pieces_markup(pieces.drop_last()) + pieces.last());
    assert(pieces_markup(pieces) =~= pieces[0]);
    assert(attrs_markup(attrs) =~= Seq::<char>::empty());
    assert("<"@ + tag + attrs_markup(attrs) + ">"@ =~= "<li>"@);
    assert("</"@ + tag + ">"@ =~= "</li>"@);
    assert(item.html_spec() == "<"@ + tag + attrs_markup(attrs) + ">"@ + pieces_markup(pieces)
        + "</"@ + tag + ">"@);
    assert(item.html_spec() =~= list_item_piece(pieces[0]));
}

impl Container {
    /// Creates a new container with the specified tag.
    pub fn new(tag: ContainerType) -> (r: Self)
        ensures
            r.0.tag == container_tag(tag),
            r.0.attributes.deep_view() == Seq::<(Seq<char>, Seq<char>)>::empty(),
            r.0.children.deep_view() == Seq::<Seq<char>>::empty(),
    {
        Container(HtmlElement::new(HtmlTag::from(tag)))
    }

    /// Associates the specified attributes with this container.
    ///
    /// Note that this operation replaces the container's attribute set:
    /// each call overrides all previous `with_attributes` calls.
    pub fn with_attributes(self, attributes: &Vec<(String, String)>) -> (r: Self)
        ensures
            r.0.tag == self.0.tag,
            r.0.children == self.0.children,
            r.0.attributes.deep_view() == attributes.deep_view(),
    {
        let mut inner = self.0;
        set_attributes(&mut inner, attributes);
        Container(inner)
    }
}

/// The list-wrapping law: absorbing content into an ordered or unordered
/// list appends exactly one `<li>`-wrapped copy of the content's markup to
/// the child list, while any other container appends the markup unchanged.
pub proof fn lemma_list_wrapping(pre: Container, piece: Seq<char>, post: Container)
    requires
        pre.absorbed(piece, post),
    ensures
        is_list_tag(pre.0.tag) ==> post.0.children.deep_view()
            == pre.0.children.deep_view().push(list_item_piece(piece)),
        !is_list_tag(pre.0.tag) ==> post.0.children.deep_view()
            == pre.0.children.deep_view().push(piece),
        post.0.tag == pre.0.tag,
        post.0.attributes == pre.0.attributes,
{
}

} // verus!
