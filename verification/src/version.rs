//! Definitions of the recognized HTML dialects.

use vstd::prelude::*;

verus! {

use crate::attributes::Attributes;

/// Versions of the HTML (or XHTML) standard.
///
/// Each version contributes a doctype string and a set of attributes for
/// the document's opening `<html>` tag.  This library does not check that a
/// page is actually valid in the chosen standard; the feature set targets
/// HTML 5, and older versions are provided for compatibility output only.
#[derive(Debug, PartialEq, Eq, Structural, Clone, Copy)]
pub enum HtmlVersion {
    /// HTML 5. The current and preferred version of the HTML standard.
    HTML5,
    /// Legacy HTML 4.01. Potentially useful for supporting old browsers.
    HTML4,
    /// Legacy XHTML 1.0. This is still common in HTML emails for backwards
    /// compatibility with different email clients.
    XHTML1_0,
    /// Legacy XHTML 1.1.
    XHTML1_1,
}

impl Default for HtmlVersion {
    /// The default version is HTML 5.
    fn default() -> (r: Self)
        ensures
            r == HtmlVersion::HTML5,
    {
        HtmlVersion::HTML5
    }
}

/// The doctype string of each HTML version.
pub open spec fn version_doctype(v: HtmlVersion) -> Seq<char> {
    match v {
        HtmlVersion::HTML5 => "<!DOCTYPE html>"@,
        HtmlVersion::HTML4 => "<!DOCTYPE HTML PUBLIC \"-//W3C//DTD HTML 4.01 Transitional//EN\" \"http://www.w3.org/TR/HTML4/loose.dtd\">"@,
        HtmlVersion::XHTML1_0 => "<!DOCTYPE html PUBLIC \"-//W3C//DTD XHTML 1.0 Transitional//EN\" \"http://www.w3.org/TR/xhtml1/DTD/xhtml1-transitional.dtd\">"@,
        HtmlVersion::XHTML1_1 => "<!DOCTYPE html PUBLIC \"-//W3C//DTD XHTML 1.1//EN\" \"http://www.w3.org/TR/xhtml11/DTD/xhtml11.dtd\">"@,
    }
}

/// The attributes each HTML version puts on the opening `<html>` tag.
pub open spec fn version_attrs(v: HtmlVersion) -> Seq<(Seq<char>, Seq<char>)> {
    match v {
        HtmlVersion::XHTML1_0 => seq![("xmlns"@, "http://www.w3.org/1999/xhtml"@)],
        HtmlVersion::XHTML1_1 => seq![
            ("xmlns"@, "http://www.w3.org/1999/xhtml"@),
            ("xmlns:xsi"@, "http://www.w3.org/2001/XMLSchema-instance"@),
            ("xsi:schemaLocation"@, "http://www.w3.org/MarkUp/SCHEMA/xhtml11.xsd"@),
            ("xml:lang"@, "en"@),
        ],
        _ => Seq::empty(),
    }
}

impl HtmlVersion {
    /// Return the doctype (DTD) that corresponds to this version of the
    /// HTML standard.
    pub fn doctype(&self) -> (r: &'static str)
        ensures
            r@ == version_doctype(*self),
    {
        match self {
            Self::HTML5 => "<!DOCTYPE html>",
            Self::HTML4 => {
                "<!DOCTYPE HTML PUBLIC \"-//W3C//DTD HTML 4.01 Transitional//EN\" \"http://www.w3.org/TR/HTML4/loose.dtd\">"
            },
            Self::XHTML1_0 => {
                "<!DOCTYPE html PUBLIC \"-//W3C//DTD XHTML 1.0 Transitional//EN\" \"http://www.w3.org/TR/xhtml1/DTD/xhtml1-transitional.dtd\">"
            },
            Self::XHTML1_1 => {
                "<!DOCTYPE html PUBLIC \"-//W3C//DTD XHTML 1.1//EN\" \"http://www.w3.org/TR/xhtml11/DTD/xhtml11.dtd\">"
            },
        }
    }

    /// Return the set of attributes that this version applies to the page's
    /// opening `<html>` tag.
    pub fn html_attrs(&self) -> (r: Attributes)
        ensures
            r@ == version_attrs(*self),
    {
        let mut attrs = Attributes::default();
        match self {
            Self::XHTML1_0 => {
                attrs.add("xmlns", "http://www.w3.org/1999/xhtml");
                proof {
                    assert(attrs@ =~= version_attrs(*self));
                }
            },
            Self::XHTML1_1 => {
                attrs.add("xmlns", "http://www.w3.org/1999/xhtml");
                attrs.add("xmlns:xsi", "http://www.w3.org/2001/XMLSchema-instance");
                attrs.add("xsi:schemaLocation", "http://www.w3.org/MarkUp/SCHEMA/xhtml11.xsd");
                attrs.add("xml:lang", "en");
                proof {
                    assert(attrs@ =~= version_attrs(*self));
                }
            },
            _ => {
                proof {
                    assert(attrs@ =~= version_attrs(*self));
                }
            },
        }
        attrs
    }
}

} // verus!
