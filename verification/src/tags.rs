//! The closed set of HTML tags known to this library.

use vstd::prelude::*;

verus! {

/// A list of HTML tags
///
/// This non-comprehensive list of tags is a subset of those listed in the MDN
/// Web Docs HTML elements reference.
#[derive(Debug, PartialEq, Eq, Structural, Clone, Copy)]
pub enum HtmlTag {
    /// A contact address
    Address,
    /// A self-contained article
    Article,
    /// Indicates side content to the main content
    Aside,
    /// Indicates a blockquote
    Blockquote,
    /// HTML canvas element
    Canvas,
    /// Used to mark the title of a cited work
    Cite,
    /// A text block containing code
    CodeText,
    /// The outer wrapper for a description list
    DescriptionList,
    /// A description or definition for a term in a description list
    DescriptionListDescription,
    /// A term to be defined in a description list
    DescriptionListTerm,
    /// The almighty div -- a generic container with no predefined meaning
    Div,
    /// The caption for the contents of a figure
    Figcaption,
    /// A figure, such as an image
    Figure,
    /// A page footer
    Footer,
    /// A page header, or introductory content
    Header,
    /// A top level heading
    Heading1,
    /// A second-level heading
    Heading2,
    /// A third-level heading
    Heading3,
    /// A fourth-level heading
    Heading4,
    /// A fifth-level heading
    Heading5,
    /// A sixth (and lowest) level heading
    Heading6,
    /// A wrapper to associate a heading with related content
    HeadingGroup,
    /// A horizontal rule across the page
    HorizontalRule,
    /// A frame to embed one page within another
    Iframe,
    /// An image element
    Image,
    /// An inline quote
    InlineQuote,
    /// A manual line break
    LineBreak,
    /// A link to another page or resource
    Link,
    /// A list element, used within OrderedList and UnorderedList elements
    ListElement,
    /// A container for the main content on a page
    Main,
    /// A container for the navigation content on a page
    Navigation,
    /// An ordered, generally numbered, list
    OrderedList,
    /// Paragraph text
    ParagraphText,
    /// Preformatted text, typically rendered in monospace
    PreformattedText,
    /// A generic section of the document
    Section,
    /// A subsection of text
    Span,
    /// A table element
    Table,
    /// The table body
    TableBody,
    /// A table caption
    TableCaption,
    /// A single data cell within a table row (`td`)
    TableCell,
    /// A table column, generally found inside a TableColumnGroup
    TableColumn,
    /// A group of table columns
    TableColumnGroup,
    /// The footer of a table
    TableFooter,
    /// The section of the table containing header rows
    TableHeader,
    /// A header cell within a table row (`th`)
    TableHeaderCell,
    /// A table row
    TableRow,
    /// An unordered, generally bulleted, list
    UnorderedList,
    /// An embedded video element
    Video,
}

/// The tag name, as a character sequence, for each tag kind.  The mapping is
/// total: every variant has exactly one tag string.
pub open spec fn tag_str(tag: HtmlTag) -> Seq<char> {
    match tag {
        HtmlTag::Address => "address"@,
        HtmlTag::Article => "article"@,
        HtmlTag::Aside => "aside"@,
        HtmlTag::Blockquote => "blockquote"@,
        HtmlTag::Canvas => "canvas"@,
        HtmlTag::Cite => "cite"@,
        HtmlTag::CodeText => "code"@,
        HtmlTag::DescriptionList => "dl"@,
        HtmlTag::DescriptionListDescription => "dd"@,
        HtmlTag::DescriptionListTerm => "dt"@,
        HtmlTag::Div => "div"@,
        HtmlTag::Figcaption => "figcaption"@,
        HtmlTag::Figure => "figure"@,
        HtmlTag::Footer => "footer"@,
        HtmlTag::Header => "header"@,
        HtmlTag::Heading1 => "h1"@,
        HtmlTag::Heading2 => "h2"@,
        HtmlTag::Heading3 => "h3"@,
        HtmlTag::Heading4 => "h4"@,
        HtmlTag::Heading5 => "h5"@,
        HtmlTag::Heading6 => "h6"@,
        HtmlTag::HeadingGroup => "hgroup"@,
        HtmlTag::HorizontalRule => "hr"@,
        HtmlTag::Iframe => "iframe"@,
        HtmlTag::Image => "img"@,
        HtmlTag::InlineQuote => "q"@,
        HtmlTag::LineBreak => "br"@,
        HtmlTag::Link => "a"@,
        HtmlTag::ListElement => "li"@,
        HtmlTag::Main => "main"@,
        HtmlTag::Navigation => "nav"@,
        HtmlTag::OrderedList => "ol"@,
        HtmlTag::ParagraphText => "p"@,
        HtmlTag::PreformattedText => "pre"@,
        HtmlTag::Section => "section"@,
        HtmlTag::Span => "span"@,
        HtmlTag::Table => "table"@,
        HtmlTag::TableBody => "tbody"@,
        HtmlTag::TableCaption => "caption"@,
        HtmlTag::TableCell => "td"@,
        HtmlTag::TableColumn => "col"@,
        HtmlTag::TableColumnGroup => "colgroup"@,
        HtmlTag::TableFooter => "tfoot"@,
        HtmlTag::TableHeader => "thead"@,
        HtmlTag::TableHeaderCell => "th"@,
        HtmlTag::TableRow => "tr"@,
        HtmlTag::UnorderedList => "ul"@,
        HtmlTag::Video => "video"@,
    }
}

impl HtmlTag {
    /// Get the tag code that this tag represents.
    pub fn as_str(&self) -> (r: &'static str)
        ensures
            r@ == tag_str(*self),
    {
        match self {
            Self::Address => "address",
            Self::Article => "article",
            Self::Aside => "aside",
            Self::Blockquote => "blockquote",
            Self::Canvas => "canvas",
            Self::Cite => "cite",
            Self::CodeText => "code",
            Self::DescriptionList => "dl",
            Self::DescriptionListDescription => "dd",
            Self::DescriptionListTerm => "dt",
            Self::Div => "div",
            Self::Figcaption => "figcaption",
            Self::Figure => "figure",
            Self::Footer => "footer",
            Self::Header => "header",
            Self::Heading1 => "h1",
            Self::Heading2 => "h2",
            Self::Heading3 => "h3",
            Self::Heading4 => "h4",
            Self::Heading5 => "h5",
            Self::Heading6 => "h6",
            Self::HeadingGroup => "hgroup",
            Self::HorizontalRule => "hr",
            Self::Iframe => "iframe",
            Self::Image => "img",
            Self::InlineQuote => "q",
            Self::LineBreak => "br",
            Self::Link => "a",
            Self::ListElement => "li",
            Self::Main => "main",
            Self::Navigation => "nav",
            Self::OrderedList => "ol",
            Self::ParagraphText => "p",
            Self::PreformattedText => "pre",
            Self::Section => "section",
            Self::Span => "span",
            Self::Table => "table",
            Self::TableBody => "tbody",
            Self::TableCaption => "caption",
            Self::TableCell => "td",
            Self::TableColumn => "col",
            Self::TableColumnGroup => "colgroup",
            Self::TableFooter => "tfoot",
            Self::TableHeader => "thead",
            Self::TableHeaderCell => "th",
            Self::TableRow => "tr",
            Self::UnorderedList => "ul",
            Self::Video => "video",
        }
    }
}

} // verus!
