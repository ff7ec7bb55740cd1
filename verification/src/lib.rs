//! A library for building HTML strings from a tree of typed nodes.
//!
//! Documents are assembled bottom-up: leaf and container nodes are created,
//! decorated with attributes, attached to parents, and finally rendered to a
//! single compact markup string.  Every rendering function carries a contract
//! that pins the produced string down exactly, stated over the `Seq<char>`
//! view of the output and the spec-level markup functions in [`markup`].
//!
//! No escaping is performed automatically; untrusted text should be passed
//! through [`escape_html`] before insertion.

use vstd::prelude::*;

pub mod attributes;
pub mod container;
pub mod content;
pub mod elements;
pub mod head_content;
pub mod html_container;
pub mod html_page;
pub mod markup;
pub mod metadata;
pub mod table;
pub mod tags;
pub mod text_content;
pub mod version;

pub use crate::attributes::Attributes;
pub use crate::container::{Container, ContainerType};
pub use crate::elements::{HtmlChild, HtmlElement};
pub use crate::html_container::HtmlContainer;
pub use crate::html_page::HtmlPage;
pub use crate::table::{Table, TableCell, TableCellType, TableRow};
pub use crate::tags::HtmlTag;
pub use crate::version::HtmlVersion;

verus! {

use crate::markup::escape_seq;

/// A value that can be rendered to an HTML string.
///
/// `html_spec` gives the mathematical value of the rendering; the executable
/// `to_html_string` is required to produce exactly that string.  Rendering is
/// a pure read: the same value always renders to the same string.
pub trait Html: Sized {
    /// The rendered markup, as a sequence of characters.
    spec fn html_spec(&self) -> Seq<char>;

    /// Render this value to its HTML string.
    fn to_html_string(&self) -> (r: String)
        ensures
            r@ == self.html_spec(),
    ;
}

/// Rendering is idempotent: a node may be rendered repeatedly, and any two
/// results of [`Html::to_html_string`] on the same node are the same
/// string.
pub proof fn lemma_render_idempotent<H: Html>(node: H, r1: String, r2: String)
    requires
        call_ensures(H::to_html_string, (&node,), r1),
        call_ensures(H::to_html_string, (&node,), r2),
    ensures
        r1@ == r2@,
{
}

impl Html for String {
    open spec fn html_spec(&self) -> Seq<char> {
        self@
    }

    fn to_html_string(&self) -> (r: String) {
        self.clone()
    }
}

impl<'a> Html for &'a str {
    open spec fn html_spec(&self) -> Seq<char> {
        self@
    }

    fn to_html_string(&self) -> (r: String) {
        (*self).to_owned()
    }
}

/// Escape the provided string for safe inline insertion into HTML.
///
/// The characters `"`, `'`, `&`, `<` and `>` are replaced by their named
/// entities; every other character is passed through unchanged.
pub fn escape_html(data: &str) -> (r: String)
    ensures
        r@ == escape_seq(data@),
{
    let n = data.unicode_len();
    let mut escaped = String::new();
    let mut i: usize = 0;
    while i < n
        invariant
            n == data@.len(),
            i <= n,
            escaped@ == escape_seq(data@.take(i as int)),
        decreases n - i,
    {
        let c = data.get_char(i);
        proof {
            assert(data@.take(i + 1).drop_last() =~= data@.take(i as int));
            assert(data@.take(i + 1).last() == c);
        }
        if c == '"' {
            escaped.append("&quot;");
            proof { reveal_strlit("&quot;"); }
        } else if c == '\'' {
            escaped.append("&#39;");
            proof { reveal_strlit("&#39;"); }
        } else if c == '&' {
            escaped.append("&amp;");
            proof { reveal_strlit("&amp;"); }
        } else if c == '<' {
            escaped.append("&lt;");
            proof { reveal_strlit("&lt;"); }
        } else if c == '>' {
            escaped.append("&gt;");
            proof { reveal_strlit("&gt;"); }
        } else {
            let piece = data.substring_char(i, i + 1);
            escaped.append(piece);
            proof {
                assert(piece@ =~= seq![c]);
            }
        }
        proof {
            assert(escaped@ =~= escape_seq(data@.take(i + 1)));
        }
        i = i + 1;
    }
    proof {
        assert(data@.take(n as int) =~= data@);
    }
    escaped
}

} // verus!
