//! Tags that can be used in the metadata region of an HTML document.

use vstd::prelude::*;

verus! {

use crate::Html;
use crate::attributes::{Attributes, append_attrs};
use crate::markup::attrs_markup;

/// The markup of a head link: `<link href="href" rel="rel" attrs>`.
pub open spec fn head_link_piece(
    href: Seq<char>,
    rel: Seq<char>,
    attrs: Seq<(Seq<char>, Seq<char>)>,
) -> Seq<char> {
    "<link href=\""@ + href + "\" rel=\""@ + rel + "\""@ + attrs_markup(attrs) + ">"@
}

/// The markup of a metadata element: `<meta attrs>`.
pub open spec fn meta_piece(attrs: Seq<(Seq<char>, Seq<char>)>) -> Seq<char> {
    "<meta"@ + attrs_markup(attrs) + ">"@
}

/// The markup of an external script reference:
/// `<script src="src" attrs></script>`.
pub open spec fn script_link_piece(
    src: Seq<char>,
    attrs: Seq<(Seq<char>, Seq<char>)>,
) -> Seq<char> {
    "<script src=\""@ + src + "\""@ + attrs_markup(attrs) + "></script>"@
}

/// The markup of an inline script: `<script>code</script>`.
pub open spec fn script_literal_piece(code: Seq<char>) -> Seq<char> {
    "<script>"@ + code + "</script>"@
}

/// The markup of an inline style block: `<style attrs>css</style>`.
pub open spec fn style_piece(css: Seq<char>, attrs: Seq<(Seq<char>, Seq<char>)>) -> Seq<char> {
    "<style"@ + attrs_markup(attrs) + ">"@ + css + "</style>"@
}

/// The markup of a document title: `<title>text</title>`.
pub open spec fn title_piece(text: Seq<char>) -> Seq<char> {
    "<title>"@ + text + "</title>"@
}

/// A `<link>` element referencing an external resource from the document
/// head.
#[derive(Debug, Clone)]
pub struct Link {
    /// The linked resource.
    pub href: String,
    /// The relationship to the linked resource.
    pub rel: String,
    /// Further attributes, after `href` and `rel`.
    pub attr: Attributes,
}

impl Html for Link {
    open spec fn html_spec(&self) -> Seq<char> {
        head_link_piece(self.href@, self.rel@, self.attr@)
    }

    fn to_html_string(&self) -> (r: String) {
        let mut out = String::new();
        out.append("<link href=\"");
        out.append(self.href.as_str());
        out.append("\" rel=\"");
        out.append(self.rel.as_str());
        out.append("\"");
        append_attrs(&mut out, &self.attr.pairs);
        out.append(">");
        proof {
            assert(out@ =~= self.html_spec());
        }
        out
    }
}

/// A `<meta>` element carrying only attributes.
#[derive(Debug, Clone)]
pub struct Meta {
    /// The attributes of the element.
    pub attr: Attributes,
}

impl Html for Meta {
    open spec fn html_spec(&self) -> Seq<char> {
        meta_piece(self.attr@)
    }

    fn to_html_string(&self) -> (r: String) {
        let mut out = String::new();
        out.append("<meta");
        append_attrs(&mut out, &self.attr.pairs);
        out.append(">");
        proof {
            assert(out@ =~= self.html_spec());
        }
        out
    }
}

/// A `<script>` element referencing an external script.
#[derive(Debug, Clone)]
pub struct ScriptLink {
    /// The script source.
    pub src: String,
    /// Further attributes, after `src`.
    pub attr: Attributes,
}

impl Html for ScriptLink {
    open spec fn html_spec(&self) -> Seq<char> {
        script_link_piece(self.src@, self.attr@)
    }

    fn to_html_string(&self) -> (r: String) {
        let mut out = String::new();
        out.append("<script src=\"");
        out.append(self.src.as_str());
        out.append("\"");
        append_attrs(&mut out, &self.attr.pairs);
        out.append("></script>");
        proof {
            assert(out@ =~= self.html_spec());
        }
        out
    }
}

/// A `<script>` element holding literal code.
#[derive(Debug, Clone)]
pub struct ScriptLiteral {
    /// The script code, inserted verbatim.
    pub code: String,
}

impl Html for ScriptLiteral {
    open spec fn html_spec(&self) -> Seq<char> {
        script_literal_piece(self.code@)
    }

    fn to_html_string(&self) -> (r: String) {
        let mut out = String::new();
        out.append("<script>");
        out.append(self.code.as_str());
        out.append("</script>");
        proof {
            assert(out@ =~= self.html_spec());
        }
        out
    }
}

/// A `<style>` element holding literal CSS.
#[derive(Debug, Clone)]
pub struct Style {
    /// The style data, inserted verbatim.
    pub css: String,
    /// The attributes of the element.
    pub attr: Attributes,
}

impl Html for Style {
    open spec fn html_spec(&self) -> Seq<char> {
        style_piece(self.css@, self.attr@)
    }

    fn to_html_string(&self) -> (r: String) {
        let mut out = String::new();
        out.append("<style");
        append_attrs(&mut out, &self.attr.pairs);
        out.append(">");
        out.append(self.css.as_str());
        out.append("</style>");
        proof {
            assert(out@ =~= self.html_spec());
        }
        out
    }
}

/// A `<title>` element holding the document title.
#[derive(Debug, Clone)]
pub struct Title {
    /// The title text.
    pub content: String,
}

impl Html for Title {
    open spec fn html_spec(&self) -> Seq<char> {
        title_piece(self.content@)
    }

    fn to_html_string(&self) -> (r: String) {
        let mut out = String::new();
        out.append("<title>");
        out.append(self.content.as_str());
        out.append("</title>");
        proof {
            assert(out@ =~= self.html_spec());
        }
        out
    }
}

} // verus!
