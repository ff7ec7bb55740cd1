//! Simple leaf content nodes that can be placed inside an HTML container.
//!
//! Each node owns its attributes and inline content and renders to a fixed
//! markup shape, given exactly by the `*_piece` spec functions below.

use vstd::prelude::*;

verus! {

use crate::Html;
use crate::attributes::{Attributes, append_attrs};
use crate::markup::{attrs_markup, dec_str, digit_char};

/// The markup of a heading: `<hN attrs>text</hN>`.
pub open spec fn header_piece(
    level: nat,
    text: Seq<char>,
    attrs: Seq<(Seq<char>, Seq<char>)>,
) -> Seq<char> {
    "<h"@ + dec_str(level) + attrs_markup(attrs) + ">"@ + text + "</h"@ + dec_str(level) + ">"@
}

/// The markup of an image: `<img src="src" alt="alt" attrs>`, a void
/// element with no closing pair.
pub open spec fn image_piece(
    src: Seq<char>,
    alt: Seq<char>,
    attrs: Seq<(Seq<char>, Seq<char>)>,
) -> Seq<char> {
    "<img src=\""@ + src + "\" alt=\""@ + alt + "\""@ + attrs_markup(attrs) + ">"@
}

/// The markup of a link: `<a href="href" attrs>text</a>`.
pub open spec fn link_piece(
    href: Seq<char>,
    text: Seq<char>,
    attrs: Seq<(Seq<char>, Seq<char>)>,
) -> Seq<char> {
    "<a href=\""@ + href + "\""@ + attrs_markup(attrs) + ">"@ + text + "</a>"@
}

/// The markup of a paragraph: `<p attrs>text</p>`.
pub open spec fn paragraph_piece(text: Seq<char>, attrs: Seq<(Seq<char>, Seq<char>)>) -> Seq<char> {
    "<p"@ + attrs_markup(attrs) + ">"@ + text + "</p>"@
}

/// The markup of a preformatted block: `<pre attrs>text</pre>`.
pub open spec fn preformatted_piece(
    text: Seq<char>,
    attrs: Seq<(Seq<char>, Seq<char>)>,
) -> Seq<char> {
    "<pre"@ + attrs_markup(attrs) + ">"@ + text + "</pre>"@
}

/// A heading element, `<h1>` through `<h6>` (any level is rendered
/// literally).
#[derive(Debug, Clone)]
pub struct Header {
    /// The heading level.
    pub level: u8,
    /// The inline text.
    pub content: String,
    /// The attributes of the heading tag.
    pub attr: Attributes,
}

impl Html for Header {
    open spec fn html_spec(&self) -> Seq<char> {
        header_piece(self.level as nat, self.content@, self.attr@)
    }

    fn to_html_string(&self) -> (r: String) {
        let mut out = String::new();
        out.append("<h");
        append_u8_dec(&mut out, self.level);
        append_attrs(&mut out, &self.attr.pairs);
        out.append(">");
        out.append(self.content.as_str());
        out.append("</h");
        append_u8_dec(&mut out, self.level);
        out.append(">");
        proof {
            assert(out@ =~= self.html_spec());
        }
        out
    }
}

/// An image element, a void tag with a source and alternate text.
#[derive(Debug, Clone)]
pub struct Image {
    /// The image source.
    pub src: String,
    /// The alternate text.
    pub alt: String,
    /// The attributes of the image tag, after `src` and `alt`.
    pub attr: Attributes,
}

impl Html for Image {
    open spec fn html_spec(&self) -> Seq<char> {
        image_piece(self.src@, self.alt@, self.attr@)
    }

    fn to_html_string(&self) -> (r: String) {
        let mut out = String::new();
        out.append("<img src=\"");
        out.append(self.src.as_str());
        out.append("\" alt=\"");
        out.append(self.alt.as_str());
        out.append("\"");
        append_attrs(&mut out, &self.attr.pairs);
        out.append(">");
        proof {
            assert(out@ =~= self.html_spec());
        }
        out
    }
}

/// An anchor element with a target and inline text.
#[derive(Debug, Clone)]
pub struct Link {
    /// The link target.
    pub href: String,
    /// The inline text.
    pub content: String,
    /// The attributes of the anchor tag, after `href`.
    pub attr: Attributes,
}

impl Html for Link {
    open spec fn html_spec(&self) -> Seq<char> {
        link_piece(self.href@, self.content@, self.attr@)
    }

    fn to_html_string(&self) -> (r: String) {
        let mut out = String::new();
        out.append("<a href=\"");
        out.append(self.href.as_str());
        out.append("\"");
        append_attrs(&mut out, &self.attr.pairs);
        out.append(">");
        out.append(self.content.as_str());
        out.append("</a>");
        proof {
            assert(out@ =~= self.html_spec());
        }
        out
    }
}

/// A paragraph element.
#[derive(Debug, Clone)]
pub struct Paragraph {
    /// The inline text.
    pub content: String,
    /// The attributes of the paragraph tag.
    pub attr: Attributes,
}

impl Html for Paragraph {
    open spec fn html_spec(&self) -> Seq<char> {
        paragraph_piece(self.content@, self.attr@)
    }

    fn to_html_string(&self) -> (r: String) {
        let mut out = String::new();
        out.append("<p");
        append_attrs(&mut out, &self.attr.pairs);
        out.append(">");
        out.append(self.content.as_str());
        out.append("</p>");
        proof {
            assert(out@ =~= self.html_spec());
        }
        out
    }
}

/// A preformatted text element.
#[derive(Debug, Clone)]
pub struct Preformatted {
    /// The preformatted text, preserved verbatim.
    pub content: String,
    /// The attributes of the tag.
    pub attr: Attributes,
}

impl Html for Preformatted {
    open spec fn html_spec(&self) -> Seq<char> {
        preformatted_piece(self.content@, self.attr@)
    }

    fn to_html_string(&self) -> (r: String) {
        let mut out = String::new();
        out.append("<pre");
        append_attrs(&mut out, &self.attr.pairs);
        out.append(">");
        out.append(self.content.as_str());
        out.append("</pre>");
        proof {
            assert(out@ =~= self.html_spec());
        }
        out
    }
}

/// The one-character string for one decimal digit.
fn digit_str(d: u8) -> (r: &'static str)
    requires
        d < 10,
    ensures
        r@ == seq![digit_char(d as nat)],
{
    let r: &'static str = if d == 0 {
        "0"
    } else if d == 1 {
        "1"
    } else if d == 2 {
        "2"
    } else if d == 3 {
        "3"
    } else if d == 4 {
        "4"
    } else if d == 5 {
        "5"
    } else if d == 6 {
        "6"
    } else if d == 7 {
        "7"
    } else if d == 8 {
        "8"
    } else {
        "9"
    };
    proof {
        reveal_strlit("0");
        reveal_strlit("1");
        reveal_strlit("2");
        reveal_strlit("3");
        reveal_strlit("4");
        reveal_strlit("5");
        reveal_strlit("6");
        reveal_strlit("7");
        reveal_strlit("8");
        reveal_strlit("9");
        assert(r@ =~= seq![digit_char(d as nat)]);
    }
    r
}

/// Appends the decimal representation of `n` onto `out`.
pub(crate) fn append_u8_dec(out: &mut String, n: u8)
    ensures
        final(out)@ == old(out)@ + dec_str(n as nat),
    decreases n,
{
    if n >= 10 {
        append_u8_dec(out, n / 10);
    }
    out.append(digit_str(n % 10));
    proof {
        if n >= 10 {
            assert(dec_str(n as nat)
                == dec_str(n as nat / 10).push(digit_char(n as nat % 10)));
            assert(dec_str(n as nat / 10).push(digit_char(n as nat % 10))
                =~= dec_str(n as nat / 10) + seq![digit_char(n as nat % 10)]);
        } else {
            assert(dec_str(n as nat) =~= seq![digit_char(n as nat)]);
        }
    }
}

} // verus!
