//! Metadata elements for the head section of an [`HtmlPage`].

use vstd::prelude::*;

verus! {

use crate::Html;
use crate::head_content::title_piece;
use crate::html_page::HtmlPage;

/// Represents the HTML `<base>` element.
#[derive(Debug)]
pub struct Base;

/// Represents the HTML `<link>` element.
#[derive(Debug)]
pub struct Link;

/// Represents the HTML `<meta>` element.
#[derive(Debug)]
pub struct Meta;

/// Represents the HTML `<style>` element.
#[derive(Debug)]
pub struct Style;

/// Represents the HTML `<title>` element.
#[derive(Debug)]
pub struct Title {
    /// The title text.
    pub title: String,
}

impl Html for Title {
    open spec fn html_spec(&self) -> Seq<char> {
        title_piece(self.title@)
    }

    fn to_html_string(&self) -> (r: String) {
        let mut out = String::new();
        out.append("<title>");
        out.append(self.title.as_str());
        out.append("</title>");
        proof {
            assert(out@ =~= self.html_spec());
        }
        out
    }
}

impl Title {
    /// Returns a new title element with the specified text.
    pub fn new(title: &str) -> (r: Self)
        ensures
            r.title@ == title@,
    {
        Title { title: title.to_owned() }
    }
}

} // verus!
