//! The document root: a full page of HTML with a metadata region and a
//! content region inside a fixed document skeleton.

use vstd::prelude::*;

verus! {

use crate::Html;
use crate::HtmlContainer;
use crate::attributes::Attributes;
use crate::head_content::{
    Link, Meta, ScriptLink, ScriptLiteral, Style, Title, head_link_piece, meta_piece,
    script_link_piece, script_literal_piece, style_piece, title_piece,
};
use crate::markup::attrs_markup;
use crate::version::{HtmlVersion, version_doctype, version_attrs};

/// The doctype of HTML 5, the newest version of HTML.
pub const HTML5: &'static str = "<!DOCTYPE html>";

/// The doctype for the legacy XHTML 1.0 standard.  This is still common in
/// HTML emails for backwards compatibility with different email clients.
pub const XHTML_1_DOT_0: &'static str = "<!DOCTYPE html PUBLIC \"-//W3C//DTD XHTML 1.0 Transitional//EN\" \"http://www.w3.org/TR/xhtml1/DTD/xhtml1-transitional.dtd\">";

/// The opening HTML tag with an XML namespace attribute, which is very
/// useful for HTML emails.
pub const HTML_XML: &'static str = "<html xmlns=\"http://www.w3.org/1999/xhtml\">";

/// The plain opening HTML tag.
pub const HTML_PLAIN_TAG: &'static str = "<html>";

/// An entire page of HTML, built up by chaining addition methods.
///
/// The page separates a metadata region (the document head) from a content
/// region (the body); each is an ordered sequence of rendered pieces, kept
/// as its concatenated markup.  Rendering wraps the two regions in a fixed
/// skeleton: the doctype string, the opening tag, `<head>…</head>`,
/// `<body>…</body>`, and the closing `</html>`.  The doctype and opening
/// tag default to HTML 5 but can be replaced to select another dialect.
///
/// To convert an `HtmlPage` to a `String`, use
/// [`to_html_string`](Html::to_html_string).
#[derive(Debug, Clone)]
pub struct HtmlPage {
    /// The doctype string, emitted first.
    pub doctype: String,
    /// The opening `<html>` tag, including any dialect attributes.
    pub html: String,
    /// The concatenated markup of the metadata region.
    pub head: String,
    /// The concatenated markup of the content region.
    pub body: String,
}

/// The rendered markup of a page with the given regions and framing.
pub open spec fn page_markup(
    doctype: Seq<char>,
    html_open: Seq<char>,
    head: Seq<char>,
    body: Seq<char>,
) -> Seq<char> {
    doctype + html_open + "<head>"@ + head + "</head><body>"@ + body + "</body></html>"@
}

impl Html for HtmlPage {
    open spec fn html_spec(&self) -> Seq<char> {
        page_markup(self.doctype@, self.html@, self.head@, self.body@)
    }

    fn to_html_string(&self) -> (r: String) {
        let mut out = String::new();
        out.append(self.doctype.as_str());
        out.append(self.html.as_str());
        out.append("<head>");
        out.append(self.head.as_str());
        out.append("</head><body>");
        out.append(self.body.as_str());
        out.append("</body></html>");
        proof {
            assert(out@ =~= self.html_spec());
        }
        out
    }
}

impl HtmlContainer for HtmlPage {
    /// Content added to the page lands at the end of its content region.
    open spec fn absorbed(self, piece: Seq<char>, post: Self) -> bool {
        post.doctype == self.doctype
        && post.html == self.html
        && post.head == self.head
        && post.body@ == self.body@ + piece
    }

    fn add_html<H: Html>(&mut self, html: H) {
        let piece = html.to_html_string();
        self.body.append(piece.as_str());
    }
}

impl Default for HtmlPage {
    /// The default page is empty, with the HTML 5 doctype and a plain
    /// opening tag.
    fn default() -> (r: Self)
        ensures
            r.doctype@ == "<!DOCTYPE html>"@,
            r.html@ == "<html>"@,
            r.head@ == Seq::<char>::empty(),
            r.body@ == Seq::<char>::empty(),
    {
        HtmlPage {
            doctype: HTML5.to_owned(),
            html: HTML_PLAIN_TAG.to_owned(),
            head: String::new(),
            body: String::new(),
        }
    }
}

impl HtmlPage {
    /// Creates a new HTML page with no content.
    pub fn new() -> (r: Self)
        ensures
            r.doctype@ == "<!DOCTYPE html>"@,
            r.html@ == "<html>"@,
            r.head@ == Seq::<char>::empty(),
            r.body@ == Seq::<char>::empty(),
    {
        HtmlPage {
            doctype: HTML5.to_owned(),
            html: HTML_PLAIN_TAG.to_owned(),
            head: String::new(),
            body: String::new(),
        }
    }

    /// Creates a new HTML page with no content, framed according to the
    /// given version of the HTML standard.
    pub fn with_version(version: HtmlVersion) -> (r: Self)
        ensures
            r.doctype@ == version_doctype(version),
            r.html@ == "<html"@ + attrs_markup(version_attrs(version)) + ">"@,
            r.head@ == Seq::<char>::empty(),
            r.body@ == Seq::<char>::empty(),
    {
        let mut html_open = String::new();
        html_open.append("<html");
        let attrs = version.html_attrs();
        let rendered = attrs.render();
        html_open.append(rendered.as_str());
        html_open.append(">");
        HtmlPage {
            doctype: version.doctype().to_owned(),
            html: html_open,
            head: String::new(),
            body: String::new(),
        }
    }

    /// Replaces the doctype with a custom string.
    pub fn custom_doctype(&mut self, doctype: &str)
        ensures
            final(self).doctype@ == doctype@,
            final(self).html == old(self).html,
            final(self).head == old(self).head,
            final(self).body == old(self).body,
    {
        self.doctype = doctype.to_owned();
    }

    /// Replaces the opening `<html>` tag with a custom string, for instance
    /// one carrying extra attributes.
    pub fn custom_html_tag(&mut self, html_tag_attribute: &str)
        ensures
            final(self).doctype == old(self).doctype,
            final(self).html@ == html_tag_attribute@,
            final(self).head == old(self).head,
            final(self).body == old(self).body,
    {
        self.html = html_tag_attribute.to_owned();
    }

    /// Sets the doctype to HTML 5.
    pub fn doctype_html5(&mut self)
        ensures
            final(self).doctype@ == "<!DOCTYPE html>"@,
            final(self).html == old(self).html,
            final(self).head == old(self).head,
            final(self).body == old(self).body,
    {
        self.doctype = HTML5.to_owned();
    }

    /// Sets the doctype to XHTML 1.0, which is very useful for legacy
    /// compatibility, for example with HTML email clients.
    pub fn doctype_xhtml(&mut self)
        ensures
            final(self).doctype@ == XHTML_1_DOT_0@,
            final(self).html == old(self).html,
            final(self).head == old(self).head,
            final(self).body == old(self).body,
    {
        self.doctype = XHTML_1_DOT_0.to_owned();
    }

    /// Sets the opening `<html>` tag to carry an XML namespace attribute,
    /// which is very useful for legacy compatibility, for example with HTML
    /// email clients.
    pub fn html_xml(&mut self)
        ensures
            final(self).doctype == old(self).doctype,
            final(self).html@ == HTML_XML@,
            final(self).head == old(self).head,
            final(self).body == old(self).body,
    {
        self.html = HTML_XML.to_owned();
    }

    /// Appends the rendering of the given element to the metadata region.
    fn add_html_head<H: Html>(&mut self, html: H)
        ensures
            final(self).doctype == old(self).doctype,
            final(self).html == old(self).html,
            final(self).head@ == old(self).head@ + html.html_spec(),
            final(self).body == old(self).body,
    {
        let piece = html.to_html_string();
        self.head.append(piece.as_str());
    }

    /// Adds a new link element to the HTML head.
    pub fn add_head_link(&mut self, href: &str, rel: &str)
        ensures
            final(self).doctype == old(self).doctype,
            final(self).html == old(self).html,
            final(self).head@ == old(self).head@
                + head_link_piece(href@, rel@, Seq::empty()),
            final(self).body == old(self).body,
    {
        self.add_html_head(Link {
            href: href.to_owned(),
            rel: rel.to_owned(),
            attr: Attributes::default(),
        });
    }

    /// Returns this page with a new link element added to the HTML head.
    pub fn with_head_link(self, href: &str, rel: &str) -> (r: Self)
        ensures
            r.doctype == self.doctype,
            r.html == self.html,
            r.head@ == self.head@ + head_link_piece(href@, rel@, Seq::empty()),
            r.body == self.body,
    {
        let mut page = self;
        page.add_head_link(href, rel);
        page
    }

    /// Adds a new link element with the specified additional attributes to
    /// the HTML head.
    pub fn add_head_link_attr(&mut self, href: &str, rel: &str, attr: &Vec<(String, String)>)
        ensures
            final(self).doctype == old(self).doctype,
            final(self).html == old(self).html,
            final(self).head@ == old(self).head@
                + head_link_piece(href@, rel@, attr.deep_view()),
            final(self).body == old(self).body,
    {
        self.add_html_head(Link {
            href: href.to_owned(),
            rel: rel.to_owned(),
            attr: Attributes::from(attr),
        });
    }

    /// Returns this page with a new link element with the specified
    /// additional attributes added to the HTML head.
    pub fn with_head_link_attr(self, href: &str, rel: &str, attr: &Vec<(String, String)>) -> (r:
        Self)
        ensures
            r.doctype == self.doctype,
            r.html == self.html,
            r.head@ == self.head@ + head_link_piece(href@, rel@, attr.deep_view()),
            r.body == self.body,
    {
        let mut page = self;
        page.add_head_link_attr(href, rel, attr);
        page
    }

    /// Adds the specified metadata element to this page's head.
    pub fn add_meta(&mut self, attributes: &Vec<(String, String)>)
        ensures
            final(self).doctype == old(self).doctype,
            final(self).html == old(self).html,
            final(self).head@ == old(self).head@ + meta_piece(attributes.deep_view()),
            final(self).body == old(self).body,
    {
        self.add_html_head(Meta { attr: Attributes::from(attributes) });
    }

    /// Returns this page with the specified metadata element added to its
    /// head.
    pub fn with_meta(self, attributes: &Vec<(String, String)>) -> (r: Self)
        ensures
            r.doctype == self.doctype,
            r.html == self.html,
            r.head@ == self.head@ + meta_piece(attributes.deep_view()),
            r.body == self.body,
    {
        let mut page = self;
        page.add_meta(attributes);
        page
    }

    /// Adds the specified external script to the page's head.
    pub fn add_script_link(&mut self, src: &str)
        ensures
            final(self).doctype == old(self).doctype,
            final(self).html == old(self).html,
            final(self).head@ == old(self).head@ + script_link_piece(src@, Seq::empty()),
            final(self).body == old(self).body,
    {
        self.add_html_head(ScriptLink { src: src.to_owned(), attr: Attributes::default() });
    }

    /// Returns this page with the specified external script added to its
    /// head.
    pub fn with_script_link(self, src: &str) -> (r: Self)
        ensures
            r.doctype == self.doctype,
            r.html == self.html,
            r.head@ == self.head@ + script_link_piece(src@, Seq::empty()),
            r.body == self.body,
    {
        let mut page = self;
        page.add_script_link(src);
        page
    }

    /// Adds a script link with additional attributes to the page's head.
    pub fn add_script_link_attr(&mut self, src: &str, attributes: &Vec<(String, String)>)
        ensures
            final(self).doctype == old(self).doctype,
            final(self).html == old(self).html,
            final(self).head@ == old(self).head@
                + script_link_piece(src@, attributes.deep_view()),
            final(self).body == old(self).body,
    {
        self.add_html_head(ScriptLink { src: src.to_owned(), attr: Attributes::from(attributes) });
    }

    /// Returns this page with a script link with additional attributes
    /// added to its head.
    pub fn with_script_link_attr(self, src: &str, attributes: &Vec<(String, String)>) -> (r: Self)
        ensures
            r.doctype == self.doctype,
            r.html == self.html,
            r.head@ == self.head@ + script_link_piece(src@, attributes.deep_view()),
            r.body == self.body,
    {
        let mut page = self;
        page.add_script_link_attr(src, attributes);
        page
    }

    /// Adds the specified script literally to this page's head.
    pub fn add_script_literal(&mut self, code: &str)
        ensures
            final(self).doctype == old(self).doctype,
            final(self).html == old(self).html,
            final(self).head@ == old(self).head@ + script_literal_piece(code@),
            final(self).body == old(self).body,
    {
        self.add_html_head(ScriptLiteral { code: code.to_owned() });
    }

    /// Returns this page with the specified script added literally to its
    /// head.
    pub fn with_script_literal(self, code: &str) -> (r: Self)
        ensures
            r.doctype == self.doctype,
            r.html == self.html,
            r.head@ == self.head@ + script_literal_piece(code@),
            r.body == self.body,
    {
        let mut page = self;
        page.add_script_literal(code);
        page
    }

    /// Adds raw style data to this page's head.
    pub fn add_style(&mut self, css: &str)
        ensures
            final(self).doctype == old(self).doctype,
            final(self).html == old(self).html,
            final(self).head@ == old(self).head@ + style_piece(css@, Seq::empty()),
            final(self).body == old(self).body,
    {
        self.add_html_head(Style { css: css.to_owned(), attr: Attributes::default() });
    }

    /// Returns this page with raw style data added to its head.
    pub fn with_style(self, css: &str) -> (r: Self)
        ensures
            r.doctype == self.doctype,
            r.html == self.html,
            r.head@ == self.head@ + style_piece(css@, Seq::empty()),
            r.body == self.body,
    {
        let mut page = self;
        page.add_style(css);
        page
    }

    /// Adds the specified style data with the specified attributes to this
    /// page's head.
    pub fn add_style_attr(&mut self, css: &str, attributes: &Vec<(String, String)>)
        ensures
            final(self).doctype == old(self).doctype,
            final(self).html == old(self).html,
            final(self).head@ == old(self).head@ + style_piece(css@, attributes.deep_view()),
            final(self).body == old(self).body,
    {
        self.add_html_head(Style { css: css.to_owned(), attr: Attributes::from(attributes) });
    }

    /// Returns this page with the specified style data with the specified
    /// attributes added to its head.
    pub fn with_style_attr(self, css: &str, attributes: &Vec<(String, String)>) -> (r: Self)
        ensures
            r.doctype == self.doctype,
            r.html == self.html,
            r.head@ == self.head@ + style_piece(css@, attributes.deep_view()),
            r.body == self.body,
    {
        let mut page = self;
        page.add_style_attr(css, attributes);
        page
    }

    /// Adds the specified stylesheet link to the HTML head.
    pub fn add_stylesheet(&mut self, source: &str)
        ensures
            final(self).doctype == old(self).doctype,
            final(self).html == old(self).html,
            final(self).head@ == old(self).head@
                + head_link_piece(source@, "stylesheet"@, Seq::empty()),
            final(self).body == old(self).body,
    {
        self.add_head_link(source, "stylesheet");
    }

    /// Returns this page with the specified stylesheet link added to the
    /// HTML head.
    pub fn with_stylesheet(self, source: &str) -> (r: Self)
        ensures
            r.doctype == self.doctype,
            r.html == self.html,
            r.head@ == self.head@ + head_link_piece(source@, "stylesheet"@, Seq::empty()),
            r.body == self.body,
    {
        let mut page = self;
        page.add_stylesheet(source);
        page
    }

    /// Adds a title to this HTML page.
    pub fn add_title(&mut self, title_text: &str)
        ensures
            final(self).doctype == old(self).doctype,
            final(self).html == old(self).html,
            final(self).head@ == old(self).head@ + title_piece(title_text@),
            final(self).body == old(self).body,
    {
        self.add_html_head(Title { content: title_text.to_owned() });
    }

    /// Returns this page with a title added.
    pub fn with_title(self, title_text: &str) -> (r: Self)
        ensures
            r.doctype == self.doctype,
            r.html == self.html,
            r.head@ == self.head@ + title_piece(title_text@),
            r.body == self.body,
    {
        let mut page = self;
        page.add_title(title_text);
        page
    }
}

} // verus!
