//! HTML tables: a specialized composite with header, body and footer row
//! groups and an optional caption, each independently attributable.

use vstd::prelude::*;

verus! {

use crate::Html;
use crate::HtmlContainer;
use crate::elements::{HtmlElement, set_attributes};
use crate::attributes::append_attrs;
use crate::elements::append_pieces;
use crate::markup::{element_markup, pieces_markup, lemma_pieces_markup_push};
use crate::tags::{HtmlTag, tag_str};

/// The different types of table cells.
#[derive(Debug, PartialEq, Eq, Structural, Clone, Copy)]
pub enum TableCellType {
    /// Data elements using `<td>` tags
    Data,
    /// Header elements using `<th>` tags
    Header,
}

impl Default for TableCellType {
    /// The default cell type is a data cell.
    fn default() -> (r: Self)
        ensures
            r == TableCellType::Data,
    {
        TableCellType::Data
    }
}

/// The HTML tag that each cell type corresponds to.
pub open spec fn cell_tag(t: TableCellType) -> HtmlTag {
    match t {
        TableCellType::Data => HtmlTag::TableCell,
        TableCellType::Header => HtmlTag::TableHeaderCell,
    }
}

impl From<TableCellType> for HtmlTag {
    fn from(value: TableCellType) -> (r: Self) {
        match value {
            TableCellType::Data => HtmlTag::TableCell,
            TableCellType::Header => HtmlTag::TableHeaderCell,
        }
    }
}

impl vstd::std_specs::convert::FromSpecImpl<TableCellType> for HtmlTag {
    open spec fn obeys_from_spec() -> bool {
        true
    }

    open spec fn from_spec(t: TableCellType) -> Self {
        cell_tag(t)
    }
}

/// The markup of a plain cell of the given type holding one value:
/// `<td>value</td>` or `<th>value</th>`.
pub open spec fn plain_cell_piece(t: TableCellType, value: Seq<char>) -> Seq<char> {
    element_markup(tag_str(cell_tag(t)), Seq::empty(), seq![value])
}

/// The markup of an unattributed row of plain cells of the given type, one
/// per value.
pub open spec fn plain_row_piece(t: TableCellType, values: Seq<Seq<char>>) -> Seq<char> {
    element_markup(
        tag_str(HtmlTag::TableRow),
        Seq::empty(),
        values.map_values(|v: Seq<char>| plain_cell_piece(t, v)),
    )
}

/// A single table cell.
///
/// `TableCell` implements [`HtmlContainer`], so it can be filled just like
/// any other container.
#[derive(Debug, Clone)]
pub struct TableCell(pub HtmlElement);

impl Default for TableCell {
    /// The default cell is an empty data cell.
    fn default() -> (r: Self)
        ensures
            r.0.tag == HtmlTag::TableCell,
            r.0.attributes.deep_view() == Seq::<(Seq<char>, Seq<char>)>::empty(),
            r.0.children.deep_view() == Seq::<Seq<char>>::empty(),
    {
        TableCell::new(TableCellType::Data)
    }
}

impl Html for TableCell {
    open spec fn html_spec(&self) -> Seq<char> {
        self.0.html_spec()
    }

    fn to_html_string(&self) -> (r: String) {
        self.0.to_html_string()
    }
}

impl HtmlContainer for TableCell {
    open spec fn absorbed(self, piece: Seq<char>, post: Self) -> bool {
        self.0.absorbed(piece, post.0)
    }

    fn add_html<H: Html>(&mut self, html: H) {
        self.0.add_html(html);
    }
}

impl TableCell {
    /// Create a new `TableCell` with the given type.
    pub fn new(cell_type: TableCellType) -> (r: Self)
        ensures
            r.0.tag == cell_tag(cell_type),
            r.0.attributes.deep_view() == Seq::<(Seq<char>, Seq<char>)>::empty(),
            r.0.children.deep_view() == Seq::<Seq<char>>::empty(),
    {
        TableCell(HtmlElement::new(HtmlTag::from(cell_type)))
    }

    /// Sets the attributes for this cell.
    ///
    /// Note that this operation replaces the cell's attribute set: each
    /// call overrides all previous `with_attributes` calls.
    pub fn with_attributes(self, attributes: &Vec<(String, String)>) -> (r: Self)
        ensures
            r.0.tag == self.0.tag,
            r.0.children == self.0.children,
            r.0.attributes.deep_view() == attributes.deep_view(),
    {
        let mut inner = self.0;
        set_attributes(&mut inner, attributes);
        TableCell(inner)
    }
}

/// A builder for manual control over individual table rows.
#[derive(Debug, Clone)]
pub struct TableRow(pub HtmlElement);

impl Default for TableRow {
    /// The default row is empty.
    fn default() -> (r: Self)
        ensures
            r.0.tag == HtmlTag::TableRow,
            r.0.attributes.deep_view() == Seq::<(Seq<char>, Seq<char>)>::empty(),
            r.0.children.deep_view() == Seq::<Seq<char>>::empty(),
    {
        TableRow::new()
    }
}

impl Html for TableRow {
    open spec fn html_spec(&self) -> Seq<char> {
        self.0.html_spec()
    }

    fn to_html_string(&self) -> (r: String) {
        self.0.to_html_string()
    }
}

impl TableRow {
    /// Create a new, empty `TableRow`.
    pub fn new() -> (r: Self)
        ensures
            r.0.tag == HtmlTag::TableRow,
            r.0.attributes.deep_view() == Seq::<(Seq<char>, Seq<char>)>::empty(),
            r.0.children.deep_view() == Seq::<Seq<char>>::empty(),
    {
        TableRow(HtmlElement::new(HtmlTag::TableRow))
    }

    /// Sets the attributes for this row.
    ///
    /// Note that this operation replaces the row's attribute set: each
    /// call overrides all previous `with_attributes` calls.
    pub fn with_attributes(self, attributes: &Vec<(String, String)>) -> (r: Self)
        ensures
            r.0.tag == self.0.tag,
            r.0.children == self.0.children,
            r.0.attributes.deep_view() == attributes.deep_view(),
    {
        let mut inner = self.0;
        set_attributes(&mut inner, attributes);
        TableRow(inner)
    }

    /// Add a cell to this row.
    pub fn add_cell(&mut self, cell: TableCell)
        ensures
            final(self).0.tag == old(self).0.tag,
            final(self).0.attributes == old(self).0.attributes,
            final(self).0.children.deep_view()
                == old(self).0.children.deep_view().push(cell.html_spec()),
    {
        self.0.add_html(cell);
    }

    /// Nest the given cell inside this row.
    pub fn with_cell(self, cell: TableCell) -> (r: Self)
        ensures
            r.0.tag == self.0.tag,
            r.0.attributes == self.0.attributes,
            r.0.children.deep_view()
                == self.0.children.deep_view().push(cell.html_spec()),
    {
        let mut row = self;
        row.add_cell(cell);
        row
    }
}

/// Represents an HTML `<table>` element with all its children.
///
/// The table keeps four independently attributable regions — the header,
/// body and footer row groups, and an optional caption — besides its own
/// attribute set.  The footer region is omitted entirely from the output
/// when it carries neither attributes nor rows, so that an unused footer
/// does not leave a stray empty tag pair in every table; the caption, when
/// present, renders as the last child.
#[derive(Debug, Clone)]
pub struct Table {
    /// The `<table>` element itself: its attributes, and any extra children
    /// rendered before the row groups.
    pub table: HtmlElement,
    /// The header row group.
    pub thead: HtmlElement,
    /// The body row group.
    pub tbody: HtmlElement,
    /// The footer row group, emitted only when visible.
    pub tfoot: HtmlElement,
    /// The optional caption, rendered after the row groups.
    pub caption: Option<HtmlElement>,
}

impl Table {
    /// An empty table frame: every region carries its standard tag with no
    /// attributes, the table element and the header and footer groups hold
    /// no children, and there is no caption.  Only the body rows are left
    /// unconstrained.
    pub open spec fn empty_except_body(&self) -> bool {
        &&& self.table.tag == HtmlTag::Table
        &&& self.table.attributes.deep_view() == Seq::<(Seq<char>, Seq<char>)>::empty()
        &&& self.table.children.deep_view() == Seq::<Seq<char>>::empty()
        &&& self.thead.tag == HtmlTag::TableHeader
        &&& self.thead.attributes.deep_view() == Seq::<(Seq<char>, Seq<char>)>::empty()
        &&& self.thead.children.deep_view() == Seq::<Seq<char>>::empty()
        &&& self.tbody.tag == HtmlTag::TableBody
        &&& self.tbody.attributes.deep_view() == Seq::<(Seq<char>, Seq<char>)>::empty()
        &&& self.tfoot.tag == HtmlTag::TableFooter
        &&& self.tfoot.attributes.deep_view() == Seq::<(Seq<char>, Seq<char>)>::empty()
        &&& self.tfoot.children.deep_view() == Seq::<Seq<char>>::empty()
        &&& self.caption is None
    }

    /// An entirely empty table, as [`Table::new`] returns it.
    pub open spec fn is_empty(&self) -> bool {
        &&& self.empty_except_body()
        &&& self.tbody.children.deep_view() == Seq::<Seq<char>>::empty()
    }

    /// Whether the footer region carries any rows or attributes, and is
    /// therefore emitted.
    pub open spec fn footer_visible(&self) -> bool {
        self.tfoot.children.deep_view().len() > 0
            || self.tfoot.attributes.deep_view().len() > 0
    }

    /// The rendered pieces that make up the table's child list, in order:
    /// any extra children, the header group, the body group, the footer
    /// group if visible, and the caption if present.
    pub open spec fn assembled_children(&self) -> Seq<Seq<char>> {
        let base = self.table.children.deep_view()
            .push(self.thead.html_spec())
            .push(self.tbody.html_spec());
        let with_foot = if self.footer_visible() {
            base.push(self.tfoot.html_spec())
        } else {
            base
        };
        match self.caption {
            Some(c) => with_foot.push(c.html_spec()),
            None => with_foot,
        }
    }
}

impl Default for Table {
    /// The default table is empty, like [`Table::new`].
    fn default() -> (r: Self)
        ensures
            r.is_empty(),
    {
        Table::new()
    }
}

impl Html for Table {
    open spec fn html_spec(&self) -> Seq<char> {
        element_markup(
            tag_str(self.table.tag),
            self.table.attributes.deep_view(),
            self.assembled_children(),
        )
    }

    #[verifier::rlimit(100)]
    fn to_html_string(&self) -> (r: String) {
        let mut out = String::new();
        out.append("<");
        out.append(self.table.tag.as_str());
        append_attrs(&mut out, &self.table.attributes);
        out.append(">");
        append_pieces(&mut out, &self.table.children);

        let ghost base = self.table.children.deep_view();
        let ghost a1 = base.push(self.thead.html_spec());
        let ghost a2 = a1.push(self.tbody.html_spec());

        let head_piece = self.thead.to_html_string();
        out.append(head_piece.as_str());
        let body_piece = self.tbody.to_html_string();
        out.append(body_piece.as_str());
        proof {
            lemma_pieces_markup_push(base, self.thead.html_spec());
            lemma_pieces_markup_push(a1, self.tbody.html_spec());
        }

        // To keep the output stable, the footer is only emitted when it
        // carries data.
        if self.tfoot.children.len() > 0 || self.tfoot.attributes.len() > 0 {
            let foot_piece = self.tfoot.to_html_string();
            out.append(foot_piece.as_str());
            proof {
                lemma_pieces_markup_push(a2, self.tfoot.html_spec());
            }
        }
        let ghost a3 = if self.footer_visible() {
            a2.push(self.tfoot.html_spec())
        } else {
            a2
        };

        match &self.caption {
            Some(caption) => {
                let caption_piece = caption.to_html_string();
                out.append(caption_piece.as_str());
                proof {
                    lemma_pieces_markup_push(a3, caption.html_spec());
                }
            },
            None => {},
        }

        out.append("</");
        out.append(self.table.tag.as_str());
        out.append(">");
        proof {
            let afinal = self.assembled_children();
            assert(pieces_markup(a2) == pieces_markup(base) + self.thead.html_spec()
                + self.tbody.html_spec());
            if self.footer_visible() {
                assert(pieces_markup(a3) == pieces_markup(a2) + self.tfoot.html_spec());
            }
            match &self.caption {
                Some(c) => {
                    assert(afinal == a3.push(c.html_spec()));
                    assert(pieces_markup(afinal) == pieces_markup(a3) + c.html_spec());
                },
                None => {
                    assert(afinal == a3);
                },
            }
            assert(out@ =~= "<"@ + tag_str(self.table.tag)
                + crate::markup::attrs_markup(self.table.attributes.deep_view()) + ">"@
                + pieces_markup(afinal) + "</"@ + tag_str(self.table.tag) + ">"@);
            assert(afinal.len() > 0);
        }
        out
    }
}

impl Table {
    /// Creates a new table with empty header and body row groups.
    pub fn new() -> (r: Self)
        ensures
            r.is_empty(),
    {
        Table {
            table: HtmlElement::new(HtmlTag::Table),
            thead: HtmlElement::new(HtmlTag::TableHeader),
            tbody: HtmlElement::new(HtmlTag::TableBody),
            tfoot: HtmlElement::new(HtmlTag::TableFooter),
            caption: None,
        }
    }

    /// Builds a table whose body holds one row of data cells per inner
    /// vector, in order, with an empty header.
    pub fn from_rows(rows: &Vec<Vec<String>>) -> (r: Self)
        ensures
            r.empty_except_body(),
            r.tbody.children.deep_view() == rows.deep_view().map_values(
                |vals: Seq<Seq<char>>| plain_row_piece(TableCellType::Data, vals),
            ),
    {
        let ghost rowspecs = rows.deep_view().map_values(
            |vals: Seq<Seq<char>>| plain_row_piece(TableCellType::Data, vals),
        );
        let mut table = Table::new();
        let n = rows.len();
        let mut i: usize = 0;
        while i < n
            invariant
                n == rows.len(),
                i <= n,
                table.empty_except_body(),
                table.tbody.children.deep_view() == rowspecs.take(i as int),
                rowspecs == rows.deep_view().map_values(
                    |vals: Seq<Seq<char>>| plain_row_piece(TableCellType::Data, vals),
                ),
            decreases n - i,
        {
            table.add_body_row(&rows[i]);
            proof {
                assert(rows.deep_view()[i as int] == rows@[i as int].deep_view());
                assert(rowspecs.take(i + 1)
                    =~= rowspecs.take(i as int).push(rowspecs[i as int]));
            }
            i = i + 1;
        }
        proof {
            assert(rowspecs.take(n as int) =~= rowspecs);
        }
        table
    }

    /// Associates the specified attributes with this table's own tag,
    /// replacing any set before: each call overrides all previous
    /// `add_attributes` calls.
    pub fn add_attributes(&mut self, attributes: &Vec<(String, String)>)
        ensures
            final(self).table.tag == old(self).table.tag,
            final(self).table.children == old(self).table.children,
            final(self).table.attributes.deep_view() == attributes.deep_view(),
            final(self).thead == old(self).thead,
            final(self).tbody == old(self).tbody,
            final(self).tfoot == old(self).tfoot,
            final(self).caption == old(self).caption,
    {
        set_attributes(&mut self.table, attributes);
    }

    /// Returns this table with the specified attributes associated with
    /// its own tag, replacing any set before.
    pub fn with_attributes(self, attributes: &Vec<(String, String)>) -> (r: Self)
        ensures
            r.table.tag == self.table.tag,
            r.table.children == self.table.children,
            r.table.attributes.deep_view() == attributes.deep_view(),
            r.thead == self.thead,
            r.tbody == self.tbody,
            r.tfoot == self.tfoot,
            r.caption == self.caption,
    {
        let mut table = self;
        table.add_attributes(attributes);
        table
    }

    /// Sets the caption for the table, replacing any previous caption.
    pub fn add_caption<H: Html>(&mut self, caption: H)
        ensures
            final(self).table == old(self).table,
            final(self).thead == old(self).thead,
            final(self).tbody == old(self).tbody,
            final(self).tfoot == old(self).tfoot,
            final(self).caption is Some,
            final(self).caption->Some_0.tag == HtmlTag::TableCaption,
            final(self).caption->Some_0.attributes.deep_view()
                == Seq::<(Seq<char>, Seq<char>)>::empty(),
            final(self).caption->Some_0.children.deep_view() == seq![caption.html_spec()],
    {
        let mut element = HtmlElement::new(HtmlTag::TableCaption);
        element.add_html(caption);
        proof {
            assert(element.children.deep_view()
                =~= seq![element.children.deep_view()[0]]);
        }
        self.caption = Some(element);
    }

    /// Returns this table with its caption set.
    pub fn with_caption<H: Html>(self, caption: H) -> (r: Self)
        ensures
            r.table == self.table,
            r.thead == self.thead,
            r.tbody == self.tbody,
            r.tfoot == self.tfoot,
            r.caption is Some,
            r.caption->Some_0.tag == HtmlTag::TableCaption,
            r.caption->Some_0.attributes.deep_view() == Seq::<(Seq<char>, Seq<char>)>::empty(),
            r.caption->Some_0.children.deep_view() == seq![caption.html_spec()],
    {
        let mut table = self;
        table.add_caption(caption);
        table
    }

    /// Associates the specified attributes with the header row group,
    /// replacing any set before.
    pub fn add_thead_attributes(&mut self, attributes: &Vec<(String, String)>)
        ensures
            final(self).table == old(self).table,
            final(self).thead.tag == old(self).thead.tag,
            final(self).thead.children == old(self).thead.children,
            final(self).thead.attributes.deep_view() == attributes.deep_view(),
            final(self).tbody == old(self).tbody,
            final(self).tfoot == old(self).tfoot,
            final(self).caption == old(self).caption,
    {
        set_attributes(&mut self.thead, attributes);
    }

    /// Returns this table with the specified attributes associated with
    /// the header row group, replacing any set before.
    pub fn with_thead_attributes(self, attributes: &Vec<(String, String)>) -> (r: Self)
        ensures
            r.table == self.table,
            r.thead.tag == self.thead.tag,
            r.thead.children == self.thead.children,
            r.thead.attributes.deep_view() == attributes.deep_view(),
            r.tbody == self.tbody,
            r.tfoot == self.tfoot,
            r.caption == self.caption,
    {
        let mut table = self;
        table.add_thead_attributes(attributes);
        table
    }

    /// Associates the specified attributes with the body row group,
    /// replacing any set before.
    pub fn add_tbody_attributes(&mut self, attributes: &Vec<(String, String)>)
        ensures
            final(self).table == old(self).table,
            final(self).thead == old(self).thead,
            final(self).tbody.tag == old(self).tbody.tag,
            final(self).tbody.children == old(self).tbody.children,
            final(self).tbody.attributes.deep_view() == attributes.deep_view(),
            final(self).tfoot == old(self).tfoot,
            final(self).caption == old(self).caption,
    {
        set_attributes(&mut self.tbody, attributes);
    }

    /// Returns this table with the specified attributes associated with
    /// the body row group, replacing any set before.
    pub fn with_tbody_attributes(self, attributes: &Vec<(String, String)>) -> (r: Self)
        ensures
            r.table == self.table,
            r.thead == self.thead,
            r.tbody.tag == self.tbody.tag,
            r.tbody.children == self.tbody.children,
            r.tbody.attributes.deep_view() == attributes.deep_view(),
            r.tfoot == self.tfoot,
            r.caption == self.caption,
    {
        let mut table = self;
        table.add_tbody_attributes(attributes);
        table
    }

    /// Associates the specified attributes with the footer row group,
    /// replacing any set before.  A footer with attributes is emitted even
    /// if it has no rows.
    pub fn add_tfoot_attributes(&mut self, attributes: &Vec<(String, String)>)
        ensures
            final(self).table == old(self).table,
            final(self).thead == old(self).thead,
            final(self).tbody == old(self).tbody,
            final(self).tfoot.tag == old(self).tfoot.tag,
            final(self).tfoot.children == old(self).tfoot.children,
            final(self).tfoot.attributes.deep_view() == attributes.deep_view(),
            final(self).caption == old(self).caption,
    {
        set_attributes(&mut self.tfoot, attributes);
    }

    /// Returns this table with the specified attributes associated with
    /// the footer row group, replacing any set before.
    pub fn with_tfoot_attributes(self, attributes: &Vec<(String, String)>) -> (r: Self)
        ensures
            r.table == self.table,
            r.thead == self.thead,
            r.tbody == self.tbody,
            r.tfoot.tag == self.tfoot.tag,
            r.tfoot.children == self.tfoot.children,
            r.tfoot.attributes.deep_view() == attributes.deep_view(),
            r.caption == self.caption,
    {
        let mut table = self;
        table.add_tfoot_attributes(attributes);
        table
    }

    /// Adds a row of header cells, one per value, to the table header.
    ///
    /// No checking is done to ensure that the row is of the proper length.
    pub fn add_header_row(&mut self, row: &Vec<String>)
        ensures
            final(self).table == old(self).table,
            final(self).thead.tag == old(self).thead.tag,
            final(self).thead.attributes == old(self).thead.attributes,
            final(self).thead.children.deep_view()
                == old(self).thead.children.deep_view().push(
                    plain_row_piece(TableCellType::Header, row.deep_view()),
                ),
            final(self).tbody == old(self).tbody,
            final(self).tfoot == old(self).tfoot,
            final(self).caption == old(self).caption,
    {
        let r = build_plain_row(TableCellType::Header, row);
        self.add_custom_header_row(r);
    }

    /// Returns this table with a row of header cells added to the table
    /// header.
    pub fn with_header_row(self, row: &Vec<String>) -> (r: Self)
        ensures
            r.table == self.table,
            r.thead.tag == self.thead.tag,
            r.thead.attributes == self.thead.attributes,
            r.thead.children.deep_view()
                == self.thead.children.deep_view().push(
                    plain_row_piece(TableCellType::Header, row.deep_view()),
                ),
            r.tbody == self.tbody,
            r.tfoot == self.tfoot,
            r.caption == self.caption,
    {
        let mut table = self;
        table.add_header_row(row);
        table
    }

    /// Adds the specified row to the table header.
    pub fn add_custom_header_row(&mut self, row: TableRow)
        ensures
            final(self).table == old(self).table,
            final(self).thead.tag == old(self).thead.tag,
            final(self).thead.attributes == old(self).thead.attributes,
            final(self).thead.children.deep_view()
                == old(self).thead.children.deep_view().push(row.html_spec()),
            final(self).tbody == old(self).tbody,
            final(self).tfoot == old(self).tfoot,
            final(self).caption == old(self).caption,
    {
        self.thead.add_html(row);
    }

    /// Returns this table with the specified row added to the table header.
    pub fn with_custom_header_row(self, row: TableRow) -> (r: Self)
        ensures
            r.table == self.table,
            r.thead.tag == self.thead.tag,
            r.thead.attributes == self.thead.attributes,
            r.thead.children.deep_view()
                == self.thead.children.deep_view().push(row.html_spec()),
            r.tbody == self.tbody,
            r.tfoot == self.tfoot,
            r.caption == self.caption,
    {
        let mut table = self;
        table.add_custom_header_row(row);
        table
    }

    /// Adds a row of data cells, one per value, to the table body.
    ///
    /// No checking is done to ensure that the row is of the proper length.
    pub fn add_body_row(&mut self, row: &Vec<String>)
        ensures
            final(self).table == old(self).table,
            final(self).thead == old(self).thead,
            final(self).tbody.tag == old(self).tbody.tag,
            final(self).tbody.attributes == old(self).tbody.attributes,
            final(self).tbody.children.deep_view()
                == old(self).tbody.children.deep_view().push(
                    plain_row_piece(TableCellType::Data, row.deep_view()),
                ),
            final(self).tfoot == old(self).tfoot,
            final(self).caption == old(self).caption,
    {
        let r = build_plain_row(TableCellType::Data, row);
        self.add_custom_body_row(r);
    }

    /// Returns this table with a row of data cells added to the table body.
    pub fn with_body_row(self, row: &Vec<String>) -> (r: Self)
        ensures
            r.table == self.table,
            r.thead == self.thead,
            r.tbody.tag == self.tbody.tag,
            r.tbody.attributes == self.tbody.attributes,
            r.tbody.children.deep_view()
                == self.tbody.children.deep_view().push(
                    plain_row_piece(TableCellType::Data, row.deep_view()),
                ),
            r.tfoot == self.tfoot,
            r.caption == self.caption,
    {
        let mut table = self;
        table.add_body_row(row);
        table
    }

    /// Adds the specified row to the table body.
    pub fn add_custom_body_row(&mut self, row: TableRow)
        ensures
            final(self).table == old(self).table,
            final(self).thead == old(self).thead,
            final(self).tbody.tag == old(self).tbody.tag,
            final(self).tbody.attributes == old(self).tbody.attributes,
            final(self).tbody.children.deep_view()
                == old(self).tbody.children.deep_view().push(row.html_spec()),
            final(self).tfoot == old(self).tfoot,
            final(self).caption == old(self).caption,
    {
        self.tbody.add_html(row);
    }

    /// Returns this table with the specified row added to the table body.
    pub fn with_custom_body_row(self, row: TableRow) -> (r: Self)
        ensures
            r.table == self.table,
            r.thead == self.thead,
            r.tbody.tag == self.tbody.tag,
            r.tbody.attributes == self.tbody.attributes,
            r.tbody.children.deep_view()
                == self.tbody.children.deep_view().push(row.html_spec()),
            r.tfoot == self.tfoot,
            r.caption == self.caption,
    {
        let mut table = self;
        table.add_custom_body_row(row);
        table
    }

    /// Adds a row of header cells, one per value, to the table footer.
    /// The footer is emitted once it holds a row.
    ///
    /// No checking is done to ensure that the row is of the proper length.
    pub fn add_footer_row(&mut self, row: &Vec<String>)
        ensures
            final(self).table == old(self).table,
            final(self).thead == old(self).thead,
            final(self).tbody == old(self).tbody,
            final(self).tfoot.tag == old(self).tfoot.tag,
            final(self).tfoot.attributes == old(self).tfoot.attributes,
            final(self).tfoot.children.deep_view()
                == old(self).tfoot.children.deep_view().push(
                    plain_row_piece(TableCellType::Header, row.deep_view()),
                ),
            final(self).caption == old(self).caption,
    {
        let r = build_plain_row(TableCellType::Header, row);
        self.add_custom_footer_row(r);
    }

    /// Returns this table with a row of header cells added to the table
    /// footer.
    pub fn with_footer_row(self, row: &Vec<String>) -> (r: Self)
        ensures
            r.table == self.table,
            r.thead == self.thead,
            r.tbody == self.tbody,
            r.tfoot.tag == self.tfoot.tag,
            r.tfoot.attributes == self.tfoot.attributes,
            r.tfoot.children.deep_view()
                == self.tfoot.children.deep_view().push(
                    plain_row_piece(TableCellType::Header, row.deep_view()),
                ),
            r.caption == self.caption,
    {
        let mut table = self;
        table.add_footer_row(row);
        table
    }

    /// Adds the specified row to the table footer.
    pub fn add_custom_footer_row(&mut self, row: TableRow)
        ensures
            final(self).table == old(self).table,
            final(self).thead == old(self).thead,
            final(self).tbody == old(self).tbody,
            final(self).tfoot.tag == old(self).tfoot.tag,
            final(self).tfoot.attributes == old(self).tfoot.attributes,
            final(self).tfoot.children.deep_view()
                == old(self).tfoot.children.deep_view().push(row.html_spec()),
            final(self).caption == old(self).caption,
    {
        self.tfoot.add_html(row);
    }

    /// Returns this table with the specified row added to the table footer.
    pub fn with_custom_footer_row(self, row: TableRow) -> (r: Self)
        ensures
            r.table == self.table,
            r.thead == self.thead,
            r.tbody == self.tbody,
            r.tfoot.tag == self.tfoot.tag,
            r.tfoot.attributes == self.tfoot.attributes,
            r.tfoot.children.deep_view()
                == self.tfoot.children.deep_view().push(row.html_spec()),
            r.caption == self.caption,
    {
        let mut table = self;
        table.add_custom_footer_row(row);
        table
    }
}

/// Builds an unattributed row holding one plain cell of the given type per
/// value.
fn build_plain_row(cell_type: TableCellType, row: &Vec<String>) -> (r: TableRow)
    ensures
        r.html_spec() == plain_row_piece(cell_type, row.deep_view()),
{
    let ghost cellspecs = row.deep_view().map_values(
        |v: Seq<char>| plain_cell_piece(cell_type, v),
    );
    let mut tr = TableRow::new();
    let n = row.len();
    let mut i: usize = 0;
    while i < n
        invariant
            n == row.len(),
            i <= n,
            tr.0.tag == HtmlTag::TableRow,
            tr.0.attributes.deep_view() == Seq::<(Seq<char>, Seq<char>)>::empty(),
            tr.0.children.deep_view() == cellspecs.take(i as int),
            cellspecs == row.deep_view().map_values(
                |v: Seq<char>| plain_cell_piece(cell_type, v),
            ),
        decreases n - i,
    {
        let cell = TableCell::new(cell_type).with_raw(row[i].as_str());
        proof {
            assert(cell.0.children.deep_view()
                =~= seq![row@[i as int]@]);
            assert(row.deep_view()[i as int] == row@[i as int]@);
            assert(cell.html_spec() == plain_cell_piece(cell_type, row.deep_view()[i as int]));
            assert(cellspecs.take(i + 1)
                =~= cellspecs.take(i as int).push(cellspecs[i as int]));
        }
        tr.add_cell(cell);
        i = i + 1;
    }
    proof {
        assert(cellspecs.take(n as int) =~= cellspecs);
    }
    tr
}

/// The footer-emission law.  For a table in the common shape — no extra
/// children on the `<table>` element and no caption — whose footer carries
/// neither rows nor attributes, the rendering consists of the header and
/// body groups only, with no footer tag pair; after one footer row is
/// added, the rendering contains the footer group exactly once, as a
/// `<tfoot>` pair wrapping exactly that row.
pub proof fn lemma_footer_emission(pre: Table, post: Table, row_piece: Seq<char>)
    requires
        pre.table.children.deep_view().len() == 0,
        pre.caption is None,
        pre.tfoot.children.deep_view().len() == 0,
        pre.tfoot.attributes.deep_view().len() == 0,
        post.table == pre.table,
        post.thead == pre.thead,
        post.tbody == pre.tbody,
        post.caption == pre.caption,
        post.tfoot.tag == pre.tfoot.tag,
        post.tfoot.attributes == pre.tfoot.attributes,
        post.tfoot.children.deep_view() == pre.tfoot.children.deep_view().push(row_piece),
    ensures
        pre.html_spec() == element_markup(
            tag_str(pre.table.tag),
            pre.table.attributes.deep_view(),
            seq![pre.thead.html_spec(), pre.tbody.html_spec()],
        ),
        post.html_spec() == element_markup(
            tag_str(pre.table.tag),
            pre.table.attributes.deep_view(),
            seq![
                pre.thead.html_spec(),
                pre.tbody.html_spec(),
                element_markup(
                    tag_str(pre.tfoot.tag),
                    Seq::<(Seq<char>, Seq<char>)>::empty(),
                    seq![row_piece],
                ),
            ],
        ),
{
    assert(pre.assembled_children()
        =~= seq![pre.thead.html_spec(), pre.tbody.html_spec()]);
    assert(post.footer_visible());
    assert(post.tfoot.children.deep_view() =~= seq![row_piece]);
    assert(post.tfoot.attributes.deep_view() =~= Seq::<(Seq<char>, Seq<char>)>::empty());
    assert(post.assembled_children()
        =~= seq![pre.thead.html_spec(), pre.tbody.html_spec(), post.tfoot.html_spec()]);
}

} // verus!
