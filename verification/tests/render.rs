use mdx::handler::{
    ComponentEntry, DefaultHandler, EchoHandler, FailingHandler, Handler, MdxComponentProps,
    TableHandler,
};
use mdx::node::{is_component_tag_name, Attribute, Element, MdxNode};
use mdx::render::{process_element, process_node, render_nodes};

fn plain_element(name: &str, children: Vec<MdxNode>) -> Element {
    Element {
        name: name.to_string(),
        id: None,
        classes: vec![],
        attributes: vec![],
        children,
    }
}

#[test]
fn classification_standard_vs_custom() {
    assert!(!is_component_tag_name("div"));
    assert!(is_component_tag_name("Div"));
    assert!(is_component_tag_name("A"));
    assert!(!is_component_tag_name("a"));
    assert!(!is_component_tag_name(""));
    assert!(!is_component_tag_name("1Div"));
    assert!(!is_component_tag_name("-Div"));
}

#[test]
fn classification_non_ascii_is_not_custom() {
    assert!(!is_component_tag_name("Übersicht"));
    assert!(!is_component_tag_name("Ωmega"));
    assert!(!is_component_tag_name("émile"));
}

#[test]
fn text_renders_verbatim() {
    let r = process_node(MdxNode::Text("hello world".to_string()), &DefaultHandler);
    assert_eq!(r, Ok("hello world".to_string()));
}

#[test]
fn comment_renders_to_nothing() {
    let r = process_node(MdxNode::Comment("ignored".to_string()), &DefaultHandler);
    assert_eq!(r, Ok(String::new()));
}

#[test]
fn standard_element_reserializes() {
    let el = plain_element("div", vec![MdxNode::Text("hi".to_string())]);
    let r = process_element(el, &DefaultHandler);
    assert_eq!(r, Ok("<div>hi</div>".to_string()));
}

#[test]
fn attribute_class_id_order() {
    let el = Element {
        name: "div".to_string(),
        id: Some("z".to_string()),
        classes: vec!["a".to_string(), "b".to_string()],
        attributes: vec![Attribute { key: "data-x".to_string(), value: Some("1".to_string()) }],
        children: vec![],
    };
    let r = process_element(el, &DefaultHandler);
    assert_eq!(r, Ok("<div data-x=\"1\" class=\"a b\" id=\"z\"></div>".to_string()));
}

#[test]
fn boolean_attribute_renders_bare() {
    let el = Element {
        name: "input".to_string(),
        id: None,
        classes: vec![],
        attributes: vec![
            Attribute { key: "disabled".to_string(), value: None },
            Attribute { key: "name".to_string(), value: Some("q".to_string()) },
        ],
        children: vec![],
    };
    let r = process_element(el, &DefaultHandler);
    assert_eq!(r, Ok("<input disabled name=\"q\"></input>".to_string()));
}

#[test]
fn no_custom_tags_matches_serialization_and_reparses() {
    let forest = vec![MdxNode::Element(Element {
        name: "p".to_string(),
        id: Some("intro".to_string()),
        classes: vec!["lead".to_string()],
        attributes: vec![],
        children: vec![
            MdxNode::Text("one ".to_string()),
            MdxNode::Element(plain_element("em", vec![MdxNode::Text("two".to_string())])),
        ],
    })];
    let expected = "<p class=\"lead\" id=\"intro\">one <em>two</em></p>";
    let first = render_nodes(forest, &DefaultHandler).unwrap();
    assert_eq!(first, expected);
    // Rendering is idempotent under re-parsing its own output.
    let reparsed = mdx::markup::parse_markup(&first).unwrap();
    let second = render_nodes(reparsed, &DefaultHandler).unwrap();
    assert_eq!(second, expected);
}

#[test]
fn handler_receives_concatenated_children() {
    // EchoHandler hands back exactly the `children` it was given.
    let el = Element {
        name: "Wrapper".to_string(),
        id: None,
        classes: vec![],
        attributes: vec![],
        children: vec![
            MdxNode::Text("a".to_string()),
            MdxNode::Element(plain_element("b", vec![MdxNode::Text("x".to_string())])),
            MdxNode::Comment("dropped".to_string()),
            MdxNode::Text("c".to_string()),
        ],
    };
    let r = process_element(el, &EchoHandler);
    assert_eq!(r, Ok("a<b>x</b>c".to_string()));
}

#[test]
fn nested_custom_inner_before_outer() {
    // The inner custom tag's output must appear inside the children
    // string handed to the outer tag's handler.
    let inner = plain_element("Inner", vec![MdxNode::Text("y".to_string())]);
    let outer = plain_element(
        "Outer",
        vec![
            MdxNode::Text("x".to_string()),
            MdxNode::Element(inner),
            MdxNode::Text("z".to_string()),
        ],
    );
    let r = process_element(outer, &EchoHandler);
    assert_eq!(r, Ok("xyz".to_string()));
}

#[test]
fn default_handler_elides_custom_siblings_still_render() {
    let forest = vec![
        MdxNode::Element(plain_element("Custom", vec![MdxNode::Text("gone".to_string())])),
        MdxNode::Element(plain_element("p", vec![MdxNode::Text("kept".to_string())])),
    ];
    let r = render_nodes(forest, &DefaultHandler);
    assert_eq!(r, Ok("<p>kept</p>".to_string()));
}

#[test]
fn table_handler_unregistered_renders_empty() {
    let handler = TableHandler { entries: vec![] };
    let el = plain_element("Custom", vec![]);
    assert_eq!(process_element(el, &handler), Ok(String::new()));
}

#[test]
fn table_handler_first_match_wins() {
    let handler = TableHandler {
        entries: vec![
            ComponentEntry { name: "Tag".to_string(), markup: "<b>1</b>".to_string() },
            ComponentEntry { name: "Tag".to_string(), markup: "<b>2</b>".to_string() },
        ],
    };
    let el = plain_element("Tag", vec![]);
    assert_eq!(process_element(el, &handler), Ok("<b>1</b>".to_string()));
}

#[test]
fn handler_failure_propagates_through_enclosing_frames() {
    let handler = FailingHandler {
        component_name: "Boom".to_string(),
        message: "boom failed".to_string(),
    };
    let forest = vec![MdxNode::Element(plain_element(
        "Outer",
        vec![MdxNode::Element(plain_element("Boom", vec![]))],
    ))];
    let r = render_nodes(forest, &handler);
    assert_eq!(r, Err("boom failed".to_string()));
}

#[test]
fn failing_handler_spares_other_tags() {
    let handler = FailingHandler {
        component_name: "Boom".to_string(),
        message: "boom failed".to_string(),
    };
    let el = plain_element("Calm", vec![]);
    assert_eq!(process_element(el, &handler), Ok(String::new()));
}

#[test]
fn deeply_nested_standard_elements() {
    let el = plain_element(
        "ul",
        vec![MdxNode::Element(plain_element(
            "li",
            vec![MdxNode::Element(plain_element(
                "code",
                vec![MdxNode::Text("x".to_string())],
            ))],
        ))],
    );
    let r = process_element(el, &DefaultHandler);
    assert_eq!(r, Ok("<ul><li><code>x</code></li></ul>".to_string()));
}

#[test]
fn handle_called_directly_gets_props() {
    let props = MdxComponentProps {
        id: None,
        classes: vec![],
        attributes: vec![],
        children: "<i>inner</i>".to_string(),
    };
    let r = EchoHandler.handle("Any".to_string(), props);
    assert_eq!(r, Ok("<i>inner</i>".to_string()));
}
