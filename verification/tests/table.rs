use build_html::{Html, HtmlContainer, HtmlElement, HtmlTag, Table, TableCell, TableCellType, TableRow};

fn rows(data: &[&[&str]]) -> Vec<Vec<String>> {
    data.iter()
        .map(|row| row.iter().map(|v| v.to_string()).collect())
        .collect()
}

fn row(data: &[&str]) -> Vec<String> {
    data.iter().map(|v| v.to_string()).collect()
}

fn pairs(items: &[(&str, &str)]) -> Vec<(String, String)> {
    items.iter().map(|(k, v)| (k.to_string(), v.to_string())).collect()
}

#[test]
fn test_from_arr() {
    // Arrange
    let arr = rows(&[&["1", "2", "3"], &["4", "5", "6"], &["7", "8", "9"]]);

    // Act
    let result = Table::from_rows(&arr).to_html_string();

    // Assert
    assert_eq!(
        result,
        "<table><thead/><tbody><tr><td>1</td><td>2</td><td>3</td></tr><tr><td>4</td><td>5</td><td>6</td></tr><tr><td>7</td><td>8</td><td>9</td></tr></tbody></table>"
    )
}

#[test]
fn test_from_vec() {
    // Arrange
    let arr = vec![
        vec!["1".to_string(), "2".to_string(), "3".to_string()],
        vec!["4".to_string(), "5".to_string(), "6".to_string()],
        vec!["7".to_string(), "8".to_string(), "9".to_string()],
    ];

    // Act
    let result = Table::from_rows(&arr).to_html_string();

    // Assert
    assert_eq!(
        result,
        "<table><thead/><tbody><tr><td>1</td><td>2</td><td>3</td></tr><tr><td>4</td><td>5</td><td>6</td></tr><tr><td>7</td><td>8</td><td>9</td></tr></tbody></table>"
    )
}

#[test]
fn test_inner_html() {
    // Arrange
    let table = Table::from_rows(&vec![
        vec![
            HtmlElement::new(HtmlTag::Div)
                .with_paragraph("This_is_column_one")
                .to_html_string(),
            HtmlElement::new(HtmlTag::Article)
                .with_paragraph("This_is_column_two")
                .to_html_string(),
        ],
        vec![
            HtmlElement::new(HtmlTag::Div).to_html_string(),
            HtmlElement::new(HtmlTag::Div)
                .with_table(Table::from_rows(&rows(&[&["1", "2"], &["3", "4"]])))
                .to_html_string(),
        ],
    ]);

    let expected = "<table>
            <thead/>
            <tbody>
                <tr>
                    <td><div><p>This_is_column_one</p></div></td>
                    <td><article><p>This_is_column_two</p></article></td>
                </tr>
                <tr>
                    <td><div/></td>
                    <td><div><table>
                        <thead/>
                        <tbody>
                            <tr>
                                <td>1</td>
                                <td>2</td>
                            </tr>
                            <tr>
                                <td>3</td>
                                <td>4</td>
                            </tr>
                        </tbody>
                    </table></div></td>
                </tr>
            </tbody>
        </table>";

    assert_eq!(
        table.to_html_string(),
        expected
            .chars()
            .filter(|x| !x.is_ascii_whitespace())
            .collect::<String>()
    );
}

#[test]
fn header_and_body_rows() {
    let html_table = Table::from_rows(&rows(&[&["1", "2", "3"], &["4", "5", "6"]]))
        .with_header_row(&row(&["A", "B", "C"]))
        .to_html_string();

    assert_eq!(
        html_table,
        "<table><thead><tr><th>A</th><th>B</th><th>C</th></tr></thead><tbody><tr><td>1</td><td>2</td><td>3</td></tr><tr><td>4</td><td>5</td><td>6</td></tr></tbody></table>"
    );
}

#[test]
fn empty_footer_is_omitted() {
    let mut table = Table::new();
    table.add_body_row(&row(&["1", "2"]));

    // A footer with no rows and no attributes leaves no trace in the
    // output.
    assert_eq!(
        table.to_html_string(),
        "<table><thead/><tbody><tr><td>1</td><td>2</td></tr></tbody></table>"
    );

    // One footer row makes the footer pair appear exactly once, wrapping
    // that row.
    table.add_footer_row(&row(&["a", "b"]));
    assert_eq!(
        table.to_html_string(),
        "<table><thead/><tbody><tr><td>1</td><td>2</td></tr></tbody><tfoot><tr><th>a</th><th>b</th></tr></tfoot></table>"
    );
}

#[test]
fn footer_with_attributes_is_emitted() {
    let table = Table::new()
        .with_tfoot_attributes(&pairs(&[("id", "my-foot")]))
        .to_html_string();

    assert_eq!(
        table,
        r#"<table><thead/><tbody/><tfoot id="my-foot"/></table>"#
    );
}

#[test]
fn table_attributes() {
    let mut table = Table::new();
    table.add_attributes(&pairs(&[("id", "my-table")]));

    assert_eq!(
        table.to_html_string(),
        r#"<table id="my-table"><thead/><tbody/></table>"#
    );
}

#[test]
fn thead_and_tbody_attributes() {
    let table = Table::new()
        .with_attributes(&pairs(&[("id", "my-table")]))
        .with_thead_attributes(&pairs(&[("id", "my-thead")]))
        .with_tbody_attributes(&pairs(&[("id", "my-body")]))
        .to_html_string();

    assert_eq!(
        table,
        r#"<table id="my-table"><thead id="my-thead"/><tbody id="my-body"/></table>"#
    );
}

#[test]
fn caption_renders_last() {
    let table = Table::from_rows(&rows(&[&["1", "2"], &["3", "4"]]))
        .with_header_row(&row(&["a", "b"]))
        .with_caption("A demo table")
        .to_html_string();

    assert_eq!(
        table,
        "<table><thead><tr><th>a</th><th>b</th></tr></thead><tbody><tr><td>1</td><td>2</td></tr><tr><td>3</td><td>4</td></tr></tbody><caption>A demo table</caption></table>"
    );
}

#[test]
fn custom_rows_and_cells() {
    let table = Table::new()
        .with_custom_header_row(
            TableRow::new()
                .with_attributes(&pairs(&[("class", "long-row")]))
                .with_cell(TableCell::new(TableCellType::Header).with_raw("col1"))
                .with_cell(TableCell::new(TableCellType::Data).with_raw("col2"))
                .with_cell(
                    TableCell::new(TableCellType::Header)
                        .with_attributes(&pairs(&[("id", "third")]))
                        .with_raw("col3"),
                ),
        )
        .to_html_string();

    assert_eq!(
        table,
        r#"<table><thead><tr class="long-row"><th>col1</th><td>col2</td><th id="third">col3</th></tr></thead><tbody/></table>"#,
    );
}

#[test]
fn custom_body_and_footer_rows() {
    let mut table = Table::new();
    table.add_custom_body_row(
        TableRow::new()
            .with_cell(TableCell::default().with_raw("col1"))
            .with_cell(TableCell::default().with_raw("col2")),
    );
    table.add_custom_footer_row(
        TableRow::new()
            .with_cell(TableCell::new(TableCellType::Header).with_raw("col1"))
            .with_cell(TableCell::new(TableCellType::Header).with_raw("col2")),
    );

    assert_eq!(
        table.to_html_string(),
        "<table><thead/><tbody><tr><td>col1</td><td>col2</td></tr></tbody><tfoot><tr><th>col1</th><th>col2</th></tr></tfoot></table>",
    );
}

#[test]
fn cell_as_container() {
    let cell = TableCell::new(TableCellType::Header)
        .with_attributes(&pairs(&[("id", "header-cell"), ("class", "headers")]))
        .with_paragraph("Here's a paragraph!")
        .to_html_string();

    assert_eq!(
        cell,
        r#"<th id="header-cell" class="headers"><p>Here's a paragraph!</p></th>"#
    );
}
