use build_html::{Html, HtmlContainer, HtmlPage, HtmlVersion};

fn pairs(items: &[(&str, &str)]) -> Vec<(String, String)> {
    items.iter().map(|(k, v)| (k.to_string(), v.to_string())).collect()
}

#[test]
fn html_page_default() {
    // Arrange
    let sut = HtmlPage::default();

    // Act
    let html_string = sut.to_html_string();

    // Assert
    assert_eq!(
        html_string,
        "<!DOCTYPE html><html><head></head><body></body></html>"
    )
}

#[test]
fn mod_default() {
    // Arrange
    let sut = HtmlPage::default();

    // Act
    let html_string = sut.to_html_string();

    // Assert
    assert_eq!(
        html_string,
        "<!DOCTYPE html><html><head></head><body></body></html>"
    )
}

#[test]
fn tests_default() {
    // Arrange
    let sut = HtmlPage::default();

    // Act
    let html_string = sut.to_html_string();

    // Assert
    assert_eq!(
        html_string,
        "<!DOCTYPE html><html><head></head><body></body></html>"
    )
}

#[test]
fn title_and_paragraph_round_trip() {
    let page = HtmlPage::new()
        .with_title("My Page")
        .with_paragraph("Header Text")
        .to_html_string();

    assert_eq!(
        page,
        "<!DOCTYPE html><html><head><title>My Page</title></head><body><p>Header Text</p></body></html>"
    );
}

#[test]
fn head_link() {
    let page = HtmlPage::new()
        .with_head_link("favicon.ico", "icon")
        .to_html_string();

    assert_eq!(
        page,
        r#"<!DOCTYPE html><html><head><link href="favicon.ico" rel="icon"></head><body></body></html>"#
    );
}

#[test]
fn head_link_attr() {
    let mut page = HtmlPage::new();
    page.add_head_link_attr("print.css", "stylesheet", &pairs(&[("media", "print")]));

    assert_eq!(
        page.to_html_string(),
        r#"<!DOCTYPE html><html><head><link href="print.css" rel="stylesheet" media="print"></head><body></body></html>"#
    );
}

#[test]
fn meta() {
    let page = HtmlPage::new()
        .with_meta(&pairs(&[("charset", "utf-8")]))
        .to_html_string();

    assert_eq!(
        page,
        r#"<!DOCTYPE html><html><head><meta charset="utf-8"></head><body></body></html>"#
    );
}

#[test]
fn script_link() {
    let mut page = HtmlPage::new();
    page.add_script_link("myScript.js");

    assert_eq!(
        page.to_html_string(),
        r#"<!DOCTYPE html><html><head><script src="myScript.js"></script></head><body></body></html>"#
    );
}

#[test]
fn script_literal() {
    let page = HtmlPage::new()
        .with_script_literal(r#"window.onload = () => console.log("Hello World");"#)
        .to_html_string();

    assert_eq!(
        page,
        r#"<!DOCTYPE html><html><head><script>window.onload = () => console.log("Hello World");</script></head><body></body></html>"#
    );
}

#[test]
fn style() {
    let page = HtmlPage::new()
        .with_style(r#"p{font-family:"Liberation Serif";}"#)
        .to_html_string();

    assert_eq!(
        page,
        r#"<!DOCTYPE html><html><head><style>p{font-family:"Liberation Serif";}</style></head><body></body></html>"#
    );
}

#[test]
fn stylesheet() {
    let mut page = HtmlPage::new();
    page.add_stylesheet("print.css");

    assert_eq!(
        page.to_html_string(),
        r#"<!DOCTYPE html><html><head><link href="print.css" rel="stylesheet"></head><body></body></html>"#
    );
}

#[test]
fn with_version_html5() {
    assert_eq!(
        HtmlPage::with_version(HtmlVersion::HTML5).to_html_string(),
        "<!DOCTYPE html><html><head></head><body></body></html>"
    );
}

#[test]
fn with_version_xhtml() {
    assert_eq!(
        HtmlPage::with_version(HtmlVersion::XHTML1_0).to_html_string(),
        r#"<!DOCTYPE html PUBLIC "-//W3C//DTD XHTML 1.0 Transitional//EN" "http://www.w3.org/TR/xhtml1/DTD/xhtml1-transitional.dtd"><html xmlns="http://www.w3.org/1999/xhtml"><head></head><body></body></html>"#,
    );
}

#[test]
fn version_doctypes() {
    assert_eq!(HtmlVersion::HTML5.doctype(), "<!DOCTYPE html>");
    assert_eq!(
        HtmlVersion::HTML4.doctype(),
        r#"<!DOCTYPE HTML PUBLIC "-//W3C//DTD HTML 4.01 Transitional//EN" "http://www.w3.org/TR/HTML4/loose.dtd">"#
    );
    assert_eq!(
        HtmlVersion::XHTML1_1.doctype(),
        r#"<!DOCTYPE html PUBLIC "-//W3C//DTD XHTML 1.1//EN" "http://www.w3.org/TR/xhtml11/DTD/xhtml11.dtd">"#
    );
}

#[test]
fn custom_doctype_and_tag() {
    let mut page = HtmlPage::new();
    page.custom_doctype("<!DOCTYPE custom>");
    page.custom_html_tag(r#"<html lang="en">"#);

    assert_eq!(
        page.to_html_string(),
        r#"<!DOCTYPE custom><html lang="en"><head></head><body></body></html>"#
    );
}

#[test]
fn doctype_xhtml_and_xml_tag() {
    let mut page = HtmlPage::new();
    page.doctype_xhtml();
    page.html_xml();

    assert_eq!(
        page.to_html_string(),
        r#"<!DOCTYPE html PUBLIC "-//W3C//DTD XHTML 1.0 Transitional//EN" "http://www.w3.org/TR/xhtml1/DTD/xhtml1-transitional.dtd"><html xmlns="http://www.w3.org/1999/xhtml"><head></head><body></body></html>"#
    );

    page.doctype_html5();
    assert_eq!(
        page.to_html_string(),
        r#"<!DOCTYPE html><html xmlns="http://www.w3.org/1999/xhtml"><head></head><body></body></html>"#
    );
}

#[test]
fn old_style_body_helpers() {
    let page = HtmlPage::new()
        .add_h(2, "A Heading")
        .add_p("Some text")
        .add_pre("let x = 1;")
        .to_html_string();

    assert_eq!(
        page,
        "<!DOCTYPE html><html><head></head><body><h2>A Heading</h2><p>Some text</p><pre>let x = 1;</pre></body></html>"
    );
}
