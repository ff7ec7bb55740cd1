use build_html::{escape_html, Attributes, Container, Html, HtmlChild, HtmlContainer, HtmlElement, HtmlTag};

fn pairs(items: &[(&str, &str)]) -> Vec<(String, String)> {
    items.iter().map(|(k, v)| (k.to_string(), v.to_string())).collect()
}

#[test]
fn empty_element_self_closes() {
    assert_eq!(HtmlElement::new(HtmlTag::Div).to_html_string(), "<div/>");
}

#[test]
fn children_render_in_order() {
    let mut element = HtmlElement::new(HtmlTag::ParagraphText);
    element.add_child(HtmlChild::Raw("First Line".to_string()));
    element.add_child(HtmlChild::Element(HtmlElement::new(HtmlTag::LineBreak)));
    element.add_child(HtmlChild::Raw("Second Line".to_string()));
    assert_eq!(element.to_html_string(), "<p>First Line<br/>Second Line</p>");
}

#[test]
fn with_child_chains() {
    let output = HtmlElement::new(HtmlTag::Div)
        .with_child(
            HtmlElement::new(HtmlTag::Heading1)
                .with_attribute("class", "big-text")
                .with_child(HtmlChild::Raw("Header Text".to_string()))
                .into(),
        )
        .with_child(
            HtmlElement::new(HtmlTag::ParagraphText)
                .with_child(HtmlChild::Raw("Paragraph Text".to_string()))
                .with_child(HtmlElement::new(HtmlTag::LineBreak).into())
                .with_child(HtmlChild::Raw("Paragraph Text Line 2".to_string()))
                .into(),
        )
        .to_html_string();

    assert_eq!(
        output,
        r#"<div><h1 class="big-text">Header Text</h1><p>Paragraph Text<br/>Paragraph Text Line 2</p></div>"#
    );
}

#[test]
fn attributes_append() {
    let output = HtmlElement::new(HtmlTag::Div)
        .with_attribute("class", "container")
        .with_attribute("id", "first-div")
        .to_html_string();
    assert_eq!(output, r#"<div class="container" id="first-div"/>"#);
}

#[test]
fn element_as_container() {
    let element = HtmlElement::new(HtmlTag::Div)
        .with_paragraph("Paragraph Text")
        .with_preformatted("Preformatted Text")
        .to_html_string();

    assert_eq!(
        element,
        "<div><p>Paragraph Text</p><pre>Preformatted Text</pre></div>"
    );
}

#[test]
fn tag_names() {
    assert_eq!(HtmlTag::Div.as_str(), "div");
    assert_eq!(HtmlTag::OrderedList.as_str(), "ol");
    assert_eq!(HtmlTag::UnorderedList.as_str(), "ul");
    assert_eq!(HtmlTag::ListElement.as_str(), "li");
    assert_eq!(HtmlTag::Heading6.as_str(), "h6");
    assert_eq!(HtmlTag::TableHeaderCell.as_str(), "th");
    assert_eq!(HtmlTag::Video.as_str(), "video");
}

#[test]
fn escape_html_replaces_specials() {
    assert_eq!(escape_html("My <p> element!"), "My &lt;p&gt; element!");
}

#[test]
fn escape_html_all_specials() {
    assert_eq!(
        escape_html(r#"<a href="link" alt='alt'>R&D</a>"#),
        "&lt;a href=&quot;link&quot; alt=&#39;alt&#39;&gt;R&amp;D&lt;/a&gt;"
    );
}

#[test]
fn escape_html_leaves_plain_text_alone() {
    assert_eq!(escape_html("plain text, 123!"), "plain text, 123!");
    assert_eq!(escape_html(""), "");
}

#[test]
fn attribute_set_renders_one_fragment_per_pair() {
    let set = Attributes::from(&pairs(&[("id", "x"), ("class", "y")]));
    assert_eq!(set.render(), r#" id="x" class="y""#);

    // Rendering is idempotent: a second render yields identical output.
    assert_eq!(set.render(), set.render());

    let empty = Attributes::default();
    assert_eq!(empty.render(), "");
}

#[test]
fn attribute_set_add() {
    let mut set = Attributes::default();
    set.add("id", "first");
    set.add("data-x", "1");
    assert_eq!(set.render(), r#" id="first" data-x="1""#);
}

#[test]
fn escaped_text_in_element() {
    let html = HtmlElement::new(HtmlTag::Div)
        .with_paragraph(&escape_html("My <p> element!"))
        .to_html_string();

    assert_eq!(html, "<div><p>My &lt;p&gt; element!</p></div>");
}

#[test]
fn escape_html_multibyte_text() {
    assert_eq!(escape_html("café <тест>"), "café &lt;тест&gt;");
}

#[test]
fn bulk_attributes_are_last_write_wins() {
    let container = Container::default()
        .with_attributes(&pairs(&[("class", "one")]))
        .with_attributes(&pairs(&[("id", "two")]))
        .to_html_string();

    assert_eq!(container, r#"<div id="two"/>"#);
}
