use build_html::{Container, ContainerType, Html, HtmlContainer};

fn pairs(items: &[(&str, &str)]) -> Vec<(String, String)> {
    items.iter().map(|(k, v)| (k.to_string(), v.to_string())).collect()
}

#[test]
fn test_nesting() {
    // Act
    let container = Container::new(ContainerType::Main)
        .with_paragraph("paragraph")
        .with_container(
            Container::new(ContainerType::OrderedList)
                .with_container(Container::default().with_paragraph("1"))
                .with_container(Container::default().with_paragraph("2"))
                .with_container(Container::default().with_paragraph("3")),
        )
        .with_paragraph("done");

    // Assert
    assert_eq!(
        container.to_html_string(),
        "<main><p>paragraph</p><ol><li><div><p>1</p></div></li><li><div><p>2</p></div></li><li><div><p>3</p></div></li></ol><p>done</p></main>"
    )
}

#[test]
fn div_with_heading() {
    let html = Container::default()
        .with_header_attr(1, "header", &pairs(&[("id", "main-header")]))
        .to_html_string();

    assert_eq!(html, r#"<div><h1 id="main-header">header</h1></div>"#);
}

#[test]
fn plain_container_content() {
    let content = r#"<h1 id="main-header">header</h1><img src="myimage.png" alt="test image"><a href="rust-lang.org">Rust Home</a><p class="red-text">Sample Text</p><pre class="code">Text</pre>"#;

    let sut = Container::new(ContainerType::Article)
        .with_header_attr(1, "header", &pairs(&[("id", "main-header")]))
        .with_image("myimage.png", "test image")
        .with_link("rust-lang.org", "Rust Home")
        .with_paragraph_attr("Sample Text", &pairs(&[("class", "red-text")]))
        .with_preformatted_attr("Text", &pairs(&[("class", "code")]));

    assert_eq!(
        sut.to_html_string(),
        format!("<article>{}</article>", content)
    )
}

#[test]
fn list_container_wraps_each_child() {
    let content = r#"<li><h1 id="main-header">header</h1></li><li><img src="myimage.png" alt="test image"></li><li><a href="rust-lang.org">Rust Home</a></li><li><p class="red-text">Sample Text</p></li><li><pre class="code">Text</pre></li>"#;

    for tag in [ContainerType::OrderedList, ContainerType::UnorderedList] {
        let sut = Container::new(tag)
            .with_header_attr(1, "header", &pairs(&[("id", "main-header")]))
            .with_image("myimage.png", "test image")
            .with_link("rust-lang.org", "Rust Home")
            .with_paragraph_attr("Sample Text", &pairs(&[("class", "red-text")]))
            .with_preformatted_attr("Text", &pairs(&[("class", "code")]));

        let wrapper = match tag {
            ContainerType::OrderedList => "ol",
            _ => "ul",
        };
        assert_eq!(
            sut.to_html_string(),
            format!("<{tag}>{content}</{tag}>", tag = wrapper, content = content)
        )
    }
}

#[test]
fn container_attributes() {
    let container = Container::default()
        .with_attributes(&pairs(&[("class", "defaults")]))
        .with_paragraph("text")
        .to_html_string();

    assert_eq!(container, r#"<div class="defaults"><p>text</p></div>"#)
}

#[test]
fn raw_content() {
    let content = Container::default()
        .with_raw(r#"<video width="250"></video>"#)
        .to_html_string();

    assert_eq!(content, r#"<div><video width="250"></video></div>"#);
}

#[test]
fn nested_containers() {
    let text = Container::new(ContainerType::Main)
        .with_header(1, "My Container")
        .with_container(
            Container::new(ContainerType::Article)
                .with_container(Container::new(ContainerType::Div).with_paragraph("Inner Text")),
        )
        .to_html_string();

    assert_eq!(
        text,
        "<main><h1>My Container</h1><article><div><p>Inner Text</p></div></article></main>"
    );
}

#[test]
fn heading_level_with_two_digits() {
    let html = Container::default()
        .with_header(12, "deep heading")
        .to_html_string();

    assert_eq!(html, "<div><h12>deep heading</h12></div>");
}
