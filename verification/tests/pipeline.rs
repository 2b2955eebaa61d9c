use mdx::handler::{ComponentEntry, DefaultHandler, FailingHandler, TableHandler};
use mdx::markdown::{compile, split_front_matter};
use mdx::pipeline::{render, RenderError};

#[test]
fn split_no_front_matter() {
    let r = split_front_matter("# Title\n");
    assert_eq!(r, Some((None, "# Title\n".to_string())));
}

#[test]
fn split_front_matter_block() {
    let r = split_front_matter("---\nkey: value\n---\nbody");
    assert_eq!(r, Some((Some("key: value\n".to_string()), "body".to_string())));
}

#[test]
fn split_front_matter_empty_block() {
    let r = split_front_matter("---\n---\nbody");
    assert_eq!(r, Some((Some(String::new()), "body".to_string())));
}

#[test]
fn split_front_matter_closing_at_end() {
    let r = split_front_matter("---\nk: v\n---");
    assert_eq!(r, Some((Some("k: v\n".to_string()), String::new())));
}

#[test]
fn split_unterminated_front_matter() {
    assert_eq!(split_front_matter("---\nkey: value\n"), None);
    assert_eq!(split_front_matter("---\n"), None);
}

#[test]
fn compile_rejects_unterminated_front_matter() {
    let r = compile("---\nnever closed");
    assert_eq!(r, Err("unterminated front matter".to_string()));
}

#[test]
fn compile_heading() {
    let (matter, markup) = compile("---\nk: v\n---\n# T").unwrap();
    assert_eq!(matter, Some("k: v\n".to_string()));
    assert_eq!(markup.trim(), "<h1>T</h1>");
}

#[test]
fn render_end_to_end_with_custom_tag() {
    let handler = TableHandler {
        entries: vec![ComponentEntry {
            name: "Custom".to_string(),
            markup: "<span>X</span>".to_string(),
        }],
    };
    let r = render("# Title\n\n<Custom/>", &handler);
    assert_eq!(r, Ok("<h1>Title</h1><span>X</span>".to_string()));
}

#[test]
fn render_unterminated_front_matter_is_compile_error() {
    let r = render("---\nopen forever", &DefaultHandler);
    match r {
        Err(RenderError::Compile(m)) => assert_eq!(m, "unterminated front matter"),
        _ => panic!("expected a compile error"),
    }
}

#[test]
fn render_handler_failure_produces_no_output() {
    let handler = FailingHandler {
        component_name: "Boom".to_string(),
        message: "boom failed".to_string(),
    };
    let r = render("<Outer><Boom/></Outer>", &handler);
    match r {
        Err(RenderError::Handler(m)) => assert_eq!(m, "boom failed"),
        _ => panic!("expected a handler error"),
    }
}

#[test]
fn render_plain_markdown_without_custom_tags() {
    let r = render("hello *there*", &DefaultHandler);
    assert_eq!(r, Ok("<p>hello <em>there</em></p>".to_string()));
}

#[test]
fn split_ignores_dashes_with_trailing_content() {
    // "---x" does not close the block; the later bare "---" line does.
    let r = split_front_matter("---\na\n---x\n---\nbody");
    assert_eq!(r, Some((Some("a\n---x\n".to_string()), "body".to_string())));
}

#[test]
fn parse_rejects_malformed_markup() {
    assert!(mdx::markup::parse_markup("<div></div><body></body>").is_err());
}

#[test]
fn render_malformed_markup_is_parse_error() {
    let r = render("<div></div><body></body>", &DefaultHandler);
    assert!(matches!(r, Err(RenderError::Parse(_))));
}

#[test]
fn render_empty_source() {
    assert_eq!(render("", &DefaultHandler), Ok(String::new()));
}

#[test]
fn render_error_message_accessor() {
    let e = RenderError::Parse("bad markup".to_string());
    assert_eq!(e.message().as_str(), "bad markup");
}
