//! The `HtmlContainer` trait: an HTML element that can contain other
//! elements.

use vstd::prelude::*;

verus! {

use crate::Html;
use crate::attributes::Attributes;
use crate::container::Container;
use crate::content::{
    Header, Image, Link, Paragraph, Preformatted, header_piece, image_piece, link_piece,
    paragraph_piece, preformatted_piece,
};
use crate::table::Table;

/// An HTML element that can contain other HTML elements.
///
/// A container absorbs content piece by piece: each insertion renders the
/// new content once and absorbs the resulting markup piece.  How a piece is
/// absorbed is the one thing each implementing type defines, as the spec
/// relation [`absorbed`](HtmlContainer::absorbed) between the container
/// before and after the insertion; list containers, for instance, wrap
/// every piece in a list-item tag.  The convenience methods are defined,
/// and specified, in terms of that one operation.
///
/// Methods come in pairs: the `add_` form acts on a mutable reference,
/// while the `with_` form consumes and returns the container, so that calls
/// can be chained.
pub trait HtmlContainer: Html + Sized {
    /// Holds when `post` is this container after absorbing one rendered
    /// markup piece.
    spec fn absorbed(self, piece: Seq<char>, post: Self) -> bool;

    /// Adds the rendering of the specified HTML element to this container.
    ///
    /// This method can be used as an escape hatch to insert arbitrary
    /// content, including any type of your own that implements [`Html`].
    fn add_html<H: Html>(&mut self, html: H)
        ensures
            old(self).absorbed(html.html_spec(), *final(self)),
    ;

    /// Consumes the container, returning it with the rendering of the
    /// specified HTML element added to it.
    fn with_html<H: Html>(self, html: H) -> (r: Self)
        ensures
            self.absorbed(html.html_spec(), r),
    {
        let mut this = self;
        this.add_html(html);
        this
    }

    /// Nests the specified container within this container.
    fn add_container(&mut self, container: Container)
        ensures
            old(self).absorbed(container.html_spec(), *final(self)),
    {
        self.add_html(container);
    }

    /// Consumes the container, returning it with the specified container
    /// nested inside.
    fn with_container(self, container: Container) -> (r: Self)
        ensures
            self.absorbed(container.html_spec(), r),
    {
        let mut this = self;
        this.add_container(container);
        this
    }

    /// Adds the specified table to this container.
    fn add_table(&mut self, table: Table)
        ensures
            old(self).absorbed(table.html_spec(), *final(self)),
    {
        self.add_html(table);
    }

    /// Consumes the container, returning it with the specified table nested
    /// inside.
    fn with_table(self, table: Table) -> (r: Self)
        ensures
            self.absorbed(table.html_spec(), r),
    {
        let mut this = self;
        this.add_table(table);
        this
    }

    /// Adds a heading tag with the designated level to this container.
    fn add_header(&mut self, level: u8, text: &str)
        ensures
            old(self).absorbed(
                header_piece(level as nat, text@, Seq::empty()),
                *final(self),
            ),
    {
        let content = Header {
            level,
            content: text.to_owned(),
            attr: Attributes::default(),
        };
        self.add_html(content);
    }

    /// Consumes the container, returning it with a heading of the
    /// designated level added.
    fn with_header(self, level: u8, text: &str) -> (r: Self)
        ensures
            self.absorbed(header_piece(level as nat, text@, Seq::empty()), r),
    {
        let mut this = self;
        this.add_header(level, text);
        this
    }

    /// Adds a heading tag with the designated level and attributes to this
    /// container.
    fn add_header_attr(&mut self, level: u8, text: &str, attr: &Vec<(String, String)>)
        ensures
            old(self).absorbed(
                header_piece(level as nat, text@, attr.deep_view()),
                *final(self),
            ),
    {
        let content = Header {
            level,
            content: text.to_owned(),
            attr: Attributes::from(attr),
        };
        self.add_html(content);
    }

    /// Consumes the container, returning it with a heading of the
    /// designated level and attributes added.
    fn with_header_attr(self, level: u8, text: &str, attr: &Vec<(String, String)>) -> (r: Self)
        ensures
            self.absorbed(header_piece(level as nat, text@, attr.deep_view()), r),
    {
        let mut this = self;
        this.add_header_attr(level, text, attr);
        this
    }

    /// Adds an `<img>` tag to this container.
    fn add_image(&mut self, src: &str, alt: &str)
        ensures
            old(self).absorbed(image_piece(src@, alt@, Seq::empty()), *final(self)),
    {
        let content = Image {
            src: src.to_owned(),
            alt: alt.to_owned(),
            attr: Attributes::default(),
        };
        self.add_html(content);
    }

    /// Consumes the container, returning it with an `<img>` tag added.
    fn with_image(self, src: &str, alt: &str) -> (r: Self)
        ensures
            self.absorbed(image_piece(src@, alt@, Seq::empty()), r),
    {
        let mut this = self;
        this.add_image(src, alt);
        this
    }

    /// Adds an `<img>` tag with the specified attributes to this container.
    fn add_image_attr(&mut self, src: &str, alt: &str, attr: &Vec<(String, String)>)
        ensures
            old(self).absorbed(image_piece(src@, alt@, attr.deep_view()), *final(self)),
    {
        let content = Image {
            src: src.to_owned(),
            alt: alt.to_owned(),
            attr: Attributes::from(attr),
        };
        self.add_html(content);
    }

    /// Consumes the container, returning it with an `<img>` tag with the
    /// specified attributes added.
    fn with_image_attr(self, src: &str, alt: &str, attr: &Vec<(String, String)>) -> (r: Self)
        ensures
            self.absorbed(image_piece(src@, alt@, attr.deep_view()), r),
    {
        let mut this = self;
        this.add_image_attr(src, alt, attr);
        this
    }

    /// Adds an `<a>` tag to this container.
    fn add_link(&mut self, href: &str, text: &str)
        ensures
            old(self).absorbed(link_piece(href@, text@, Seq::empty()), *final(self)),
    {
        let content = Link {
            href: href.to_owned(),
            content: text.to_owned(),
            attr: Attributes::default(),
        };
        self.add_html(content);
    }

    /// Consumes the container, returning it with an `<a>` tag added.
    fn with_link(self, href: &str, text: &str) -> (r: Self)
        ensures
            self.absorbed(link_piece(href@, text@, Seq::empty()), r),
    {
        let mut this = self;
        this.add_link(href, text);
        this
    }

    /// Adds an `<a>` tag with the specified attributes to this container.
    fn add_link_attr(&mut self, href: &str, text: &str, attr: &Vec<(String, String)>)
        ensures
            old(self).absorbed(link_piece(href@, text@, attr.deep_view()), *final(self)),
    {
        let content = Link {
            href: href.to_owned(),
            content: text.to_owned(),
            attr: Attributes::from(attr),
        };
        self.add_html(content);
    }

    /// Consumes the container, returning it with an `<a>` tag with the
    /// specified attributes added.
    fn with_link_attr(self, href: &str, text: &str, attr: &Vec<(String, String)>) -> (r: Self)
        ensures
            self.absorbed(link_piece(href@, text@, attr.deep_view()), r),
    {
        let mut this = self;
        this.add_link_attr(href, text, attr);
        this
    }

    /// Adds a `<p>` tag element to this container.
    fn add_paragraph(&mut self, text: &str)
        ensures
            old(self).absorbed(paragraph_piece(text@, Seq::empty()), *final(self)),
    {
        let content = Paragraph { content: text.to_owned(), attr: Attributes::default() };
        self.add_html(content);
    }

    /// Consumes the container, returning it with a `<p>` tag element added.
    fn with_paragraph(self, text: &str) -> (r: Self)
        ensures
            self.absorbed(paragraph_piece(text@, Seq::empty()), r),
    {
        let mut this = self;
        this.add_paragraph(text);
        this
    }

    /// Adds a `<p>` tag element with the specified attributes to this
    /// container.
    fn add_paragraph_attr(&mut self, text: &str, attr: &Vec<(String, String)>)
        ensures
            old(self).absorbed(paragraph_piece(text@, attr.deep_view()), *final(self)),
    {
        let content = Paragraph { content: text.to_owned(), attr: Attributes::from(attr) };
        self.add_html(content);
    }

    /// Consumes the container, returning it with a `<p>` tag element with
    /// the specified attributes added.
    fn with_paragraph_attr(self, text: &str, attr: &Vec<(String, String)>) -> (r: Self)
        ensures
            self.absorbed(paragraph_piece(text@, attr.deep_view()), r),
    {
        let mut this = self;
        this.add_paragraph_attr(text, attr);
        this
    }

    /// Adds a `<pre>` tag element to this container.
    fn add_preformatted(&mut self, text: &str)
        ensures
            old(self).absorbed(preformatted_piece(text@, Seq::empty()), *final(self)),
    {
        let content = Preformatted { content: text.to_owned(), attr: Attributes::default() };
        self.add_html(content);
    }

    /// Consumes the container, returning it with a `<pre>` tag element
    /// added.
    fn with_preformatted(self, text: &str) -> (r: Self)
        ensures
            self.absorbed(preformatted_piece(text@, Seq::empty()), r),
    {
        let mut this = self;
        this.add_preformatted(text);
        this
    }

    /// Adds a `<pre>` tag element with the specified attributes to this
    /// container.
    fn add_preformatted_attr(&mut self, text: &str, attr: &Vec<(String, String)>)
        ensures
            old(self).absorbed(preformatted_piece(text@, attr.deep_view()), *final(self)),
    {
        let content = Preformatted { content: text.to_owned(), attr: Attributes::from(attr) };
        self.add_html(content);
    }

    /// Consumes the container, returning it with a `<pre>` tag element with
    /// the specified attributes added.
    fn with_preformatted_attr(self, text: &str, attr: &Vec<(String, String)>) -> (r: Self)
        ensures
            self.absorbed(preformatted_piece(text@, attr.deep_view()), r),
    {
        let mut this = self;
        this.add_preformatted_attr(text, attr);
        this
    }

    /// Adds raw content to the container; the content is pasted directly
    /// into the HTML, unchanged.
    fn add_raw(&mut self, content: &str)
        ensures
            old(self).absorbed(content@, *final(self)),
    {
        self.add_html(content.to_owned());
    }

    /// Consumes the container, returning it with raw content added; the
    /// content is pasted directly into the HTML, unchanged.
    fn with_raw(self, content: &str) -> (r: Self)
        ensures
            self.absorbed(content@, r),
    {
        let mut this = self;
        this.add_raw(content);
        this
    }
}

} // verus!
