//! Plain text content nodes, and shorthand methods for adding them to the
//! body of an [`HtmlPage`].

use vstd::prelude::*;

verus! {

use crate::Html;
use crate::content::{
    append_u8_dec, header_piece, paragraph_piece, preformatted_piece,
};
use crate::html_page::HtmlPage;

/// Represents the HTML `<blockquote>` element.
#[derive(Debug)]
pub struct BlockQuote;

/// Represents the HTML `<div>` element.
#[derive(Debug)]
pub struct Div;

/// Represents any of the HTML heading elements, `<h1>` through `<h6>`.
#[derive(Debug)]
pub struct H {
    /// The heading level.
    pub level: u8,
    /// The heading text.
    pub text: String,
}

impl Html for H {
    open spec fn html_spec(&self) -> Seq<char> {
        header_piece(self.level as nat, self.text@, Seq::empty())
    }

    fn to_html_string(&self) -> (r: String) {
        let mut out = String::new();
        out.append("<h");
        append_u8_dec(&mut out, self.level);
        out.append(">");
        out.append(self.text.as_str());
        out.append("</h");
        append_u8_dec(&mut out, self.level);
        out.append(">");
        proof {
            assert(crate::markup::attrs_markup(Seq::empty())
                == Seq::<char>::empty());
            assert(out@ =~= self.html_spec());
        }
        out
    }
}

/// Represents the HTML `<hr>` element.
#[derive(Debug)]
pub struct Hr;

impl Html for Hr {
    open spec fn html_spec(&self) -> Seq<char> {
        "<hr>"@
    }

    fn to_html_string(&self) -> (r: String) {
        let mut out = String::new();
        out.append("<hr>");
        proof {
            assert(out@ =~= self.html_spec());
        }
        out
    }
}

/// Represents the HTML `<li>` element.
#[derive(Debug)]
pub struct Li;

/// Represents the HTML `<ol>` element.
#[derive(Debug)]
pub struct Ol;

/// Represents the HTML `<p>` element.
#[derive(Debug)]
pub struct P {
    /// The paragraph text.
    pub text: String,
}

impl Html for P {
    open spec fn html_spec(&self) -> Seq<char> {
        paragraph_piece(self.text@, Seq::empty())
    }

    fn to_html_string(&self) -> (r: String) {
        let mut out = String::new();
        out.append("<p");
        out.append(">");
        out.append(self.text.as_str());
        out.append("</p>");
        proof {
            assert(crate::markup::attrs_markup(Seq::empty())
                == Seq::<char>::empty());
            assert(out@ =~= self.html_spec());
        }
        out
    }
}

/// Represents the HTML `<pre>` element.
#[derive(Debug)]
pub struct Pre {
    /// The preformatted text.
    pub code: String,
}

impl Html for Pre {
    open spec fn html_spec(&self) -> Seq<char> {
        preformatted_piece(self.code@, Seq::empty())
    }

    fn to_html_string(&self) -> (r: String) {
        let mut out = String::new();
        out.append("<pre");
        out.append(">");
        out.append(self.code.as_str());
        out.append("</pre>");
        proof {
            assert(crate::markup::attrs_markup(Seq::empty())
                == Seq::<char>::empty());
            assert(out@ =~= self.html_spec());
        }
        out
    }
}

/// Represents the HTML `<ul>` element.
#[derive(Debug)]
pub struct Ul;

impl HtmlPage {
    /// Returns this page with a heading of the specified level added to its
    /// body.
    pub fn add_h(self, level: u8, text: &str) -> (r: Self)
        ensures
            r.doctype == self.doctype,
            r.html == self.html,
            r.head == self.head,
            r.body@ == self.body@ + header_piece(level as nat, text@, Seq::empty()),
    {
        let h = H { level, text: text.to_owned() };
        let piece = h.to_html_string();
        let mut page = self;
        page.body.append(piece.as_str());
        page
    }

    /// Returns this page with a `<p>` tag added to its body.
    pub fn add_p(self, text: &str) -> (r: Self)
        ensures
            r.doctype == self.doctype,
            r.html == self.html,
            r.head == self.head,
            r.body@ == self.body@ + paragraph_piece(text@, Seq::empty()),
    {
        let p = P { text: text.to_owned() };
        let piece = p.to_html_string();
        let mut page = self;
        page.body.append(piece.as_str());
        page
    }

    /// Returns this page with a `<pre>` tag added to its body.
    pub fn add_pre(self, code: &str) -> (r: Self)
        ensures
            r.doctype == self.doctype,
            r.html == self.html,
            r.head == self.head,
            r.body@ == self.body@ + preformatted_piece(code@, Seq::empty()),
    {
        let pre = Pre { code: code.to_owned() };
        let piece = pre.to_html_string();
        let mut page = self;
        page.body.append(piece.as_str());
        page
    }
}

} // verus!
