use markdown::mdast::{
    BlockQuote, Delete, Emphasis, Heading, Link, Node, Paragraph, Root, Strong, Text,
};
use markdown::to_markdown;
use markdown::unist::{Point, Position};

fn text(value: &str) -> Node {
    Node::Text(Text {
        value: String::from(value),
        position: None,
    })
}

fn paragraph(children: Vec<Node>) -> Node {
    Node::Paragraph(Paragraph {
        children,
        position: None,
    })
}

fn root(children: Vec<Node>) -> Node {
    Node::Root(Root {
        children,
        position: None,
    })
}

#[test]
fn test_plain_text_node() {
    let node = Node::Text(Text {
        value: String::from("Hello, world!"),
        position: None,
    });
    assert_eq!(to_markdown(&node), "Hello, world!");
}

#[test]
fn test_empty_root_node() {
    let node = Node::Root(Root {
        children: vec![],
        position: None,
    });
    assert_eq!(to_markdown(&node), "");
}

#[test]
fn test_simplest_document() {
    let node = Node::Root(Root {
        children: vec![Node::Text(Text {
            value: String::from("Hello, world!"),
            position: None,
        })],
        position: None,
    });
    assert_eq!(to_markdown(&node), "Hello, world!");
}

#[test]
fn simple_paragraph() {
    let node = root(vec![paragraph(vec![text("Hello, world!")])]);
    assert_eq!(to_markdown(&node), "Hello, world!\n");
}

#[test]
fn simple_header() {
    let node = root(vec![Node::Heading(Heading {
        children: vec![text("Hello, world!")],
        position: None,
        depth: 1,
    })]);
    assert_eq!(to_markdown(&node), "# Hello, world!\n\n");
}

#[test]
fn deep_header() {
    let node = Node::Heading(Heading {
        children: vec![text("a")],
        position: None,
        depth: 6,
    });
    assert_eq!(to_markdown(&node), "###### a\n\n");
}

#[test]
fn header_then_paragraph() {
    let node = root(vec![
        Node::Heading(Heading {
            children: vec![text("Hello")],
            position: None,
            depth: 1,
        }),
        paragraph(vec![text("world")]),
    ]);
    assert_eq!(to_markdown(&node), "# Hello\n\nworld\n");
}

#[test]
fn simple_link() {
    let node = root(vec![paragraph(vec![Node::Link(Link {
        children: vec![text("link")],
        position: None,
        url: String::from("http://example.com"),
        title: None,
    })])]);
    assert_eq!(to_markdown(&node), "[link](http://example.com)\n");
}

#[test]
fn formatting_in_paragraph() {
    let node = root(vec![paragraph(vec![
        text("Hello, "),
        Node::Emphasis(Emphasis {
            children: vec![text("world")],
            position: None,
        }),
        text("!"),
    ])]);
    assert_eq!(to_markdown(&node), "Hello, *world*!\n");
}

#[test]
fn strong_text() {
    let node = root(vec![paragraph(vec![Node::Strong(Strong {
        children: vec![text("Hello, world!")],
        position: None,
    })])]);
    assert_eq!(to_markdown(&node), "**Hello, world!**\n");
}

#[test]
fn delete_text() {
    let node = root(vec![paragraph(vec![Node::Delete(Delete {
        children: vec![text("Hello, world!")],
        position: None,
    })])]);
    assert_eq!(to_markdown(&node), "~~Hello, world!~~\n");
}

#[test]
fn simple_blockquote() {
    let node = root(vec![Node::BlockQuote(BlockQuote {
        children: vec![paragraph(vec![text("Hello, world!")])],
        position: None,
    })]);
    assert_eq!(to_markdown(&node), "> Hello, world!\n");
}

#[test]
fn blockquote_with_formatting() {
    let node = root(vec![Node::BlockQuote(BlockQuote {
        children: vec![paragraph(vec![
            text("Hello, "),
            Node::Emphasis(Emphasis {
                children: vec![text("world")],
                position: None,
            }),
            text("!"),
        ])],
        position: None,
    })]);
    assert_eq!(to_markdown(&node), "> Hello, *world*!\n");
}

#[test]
fn multiline_blockquote() {
    // Each line of the quoted paragraph gets its own marker; the marker is
    // not part of any literal value.
    let node = root(vec![Node::BlockQuote(BlockQuote {
        children: vec![paragraph(vec![text("Hello\nworld")])],
        position: None,
    })]);
    assert_eq!(to_markdown(&node), "> Hello\n> world\n");
}

#[test]
fn nested_blockquote() {
    let node = root(vec![Node::BlockQuote(BlockQuote {
        children: vec![Node::BlockQuote(BlockQuote {
            children: vec![paragraph(vec![text("a")])],
            position: None,
        })],
        position: None,
    })]);
    assert_eq!(to_markdown(&node), "> > a\n");
}

#[test]
fn paragraph_keeps_hash_text() {
    // A number sign inside plain text is literal content, not a heading
    // marker.
    let node = root(vec![paragraph(vec![text("#hello")])]);
    assert_eq!(to_markdown(&node), "#hello\n");
}

#[test]
fn mixed_document() {
    let node = root(vec![
        Node::Heading(Heading {
            children: vec![text("Title")],
            position: None,
            depth: 2,
        }),
        paragraph(vec![text("one")]),
        Node::BlockQuote(BlockQuote {
            children: vec![paragraph(vec![text("two\nthree")])],
            position: None,
        }),
    ]);
    assert_eq!(to_markdown(&node), "## Title\n\none\n> two\n> three\n");
}

#[test]
fn rendering_ignores_positions() {
    let spanned = root(vec![paragraph(vec![Node::Text(Text {
        value: String::from("a"),
        position: Some(Position {
            start: Point {
                line: 1,
                column: 1,
                offset: 0,
            },
            end: Point {
                line: 1,
                column: 2,
                offset: 1,
            },
        }),
    })])]);
    let bare = root(vec![paragraph(vec![text("a")])]);
    assert_eq!(to_markdown(&spanned), to_markdown(&bare));
}

#[test]
fn blockquote_of_empty_content() {
    // Quoted content without any line ending is dropped; only the marker
    // and the final line ending remain.
    let node = Node::BlockQuote(BlockQuote {
        children: vec![],
        position: None,
    });
    assert_eq!(to_markdown(&node), "> \n");
}
