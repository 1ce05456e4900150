use markdown::mdast::{Break, Heading, InlineCode, Node, Paragraph, Root, Text};
use markdown::unist::{Point, Position};

fn position(start_offset: usize, end_offset: usize) -> Position {
    Position {
        start: Point {
            line: 1,
            column: start_offset + 1,
            offset: start_offset,
        },
        end: Point {
            line: 1,
            column: end_offset + 1,
            offset: end_offset,
        },
    }
}

#[test]
fn test() {
    let text = Text {
        value: "a".to_string(),
        position: Some(Position {
            start: Point {
                line: 1,
                column: 1,
                offset: 0,
            },
            end: Point {
                line: 1,
                column: 2,
                offset: 1,
            },
        }),
    };

    let paragraph = Paragraph {
        children: vec![Node::Text(text)],
        position: Some(Position {
            start: Point {
                line: 1,
                column: 1,
                offset: 0,
            },
            end: Point {
                line: 1,
                column: 2,
                offset: 1,
            },
        }),
    };

    assert_eq!(paragraph.children.len(), 1);
    assert!(matches!(&paragraph.children[0], Node::Text(_)));
}

#[test]
fn children_of_parent_and_leaf() {
    let parent = Node::Paragraph(Paragraph {
        children: vec![Node::Text(Text {
            value: "a".to_string(),
            position: None,
        })],
        position: None,
    });
    assert_eq!(parent.children().map(Vec::len), Some(1));

    let leaf = Node::Text(Text {
        value: "a".to_string(),
        position: None,
    });
    assert!(leaf.children().is_none());
}

#[test]
fn children_mut_pushes_a_child() {
    let mut parent = Node::Root(Root {
        children: vec![],
        position: None,
    });
    parent
        .children_mut()
        .unwrap()
        .push(Node::Break(Break { position: None }));
    assert_eq!(parent.children().map(Vec::len), Some(1));
    assert!(matches!(parent.children().unwrap()[0], Node::Break(_)));

    let mut leaf = Node::InlineCode(InlineCode {
        value: "a".to_string(),
        position: None,
    });
    assert!(leaf.children_mut().is_none());
}

#[test]
fn position_get_and_set() {
    let mut node = Node::Heading(Heading {
        children: vec![],
        position: None,
        depth: 2,
    });
    assert!(node.position().is_none());

    node.position_set(Some(position(0, 4)));
    assert_eq!(node.position(), Some(&position(0, 4)));

    node.position_set(None);
    assert!(node.position().is_none());
}

#[test]
fn position_mut_edits_in_place() {
    let mut node = Node::Text(Text {
        value: "a".to_string(),
        position: Some(position(0, 1)),
    });
    node.position_mut().unwrap().end.offset = 7;
    assert_eq!(node.position().unwrap().end.offset, 7);

    let mut bare = Node::Break(Break { position: None });
    assert!(bare.position_mut().is_none());
}

#[test]
fn clone_preserves_structure() {
    let tree = Node::Root(Root {
        children: vec![Node::Paragraph(Paragraph {
            children: vec![Node::Text(Text {
                value: "a".to_string(),
                position: Some(position(0, 1)),
            })],
            position: Some(position(0, 1)),
        })],
        position: Some(position(0, 1)),
    });
    let copy = tree.clone();
    assert_eq!(copy, tree);
    assert_eq!(markdown::to_markdown(&copy), markdown::to_markdown(&tree));
}

#[test]
fn equality_is_structural() {
    let a = Node::Text(Text {
        value: "a".to_string(),
        position: None,
    });
    let same = Node::Text(Text {
        value: "a".to_string(),
        position: None,
    });
    let other_value = Node::Text(Text {
        value: "b".to_string(),
        position: None,
    });
    let other_position = Node::Text(Text {
        value: "a".to_string(),
        position: Some(position(0, 1)),
    });
    let other_variant = Node::InlineCode(InlineCode {
        value: "a".to_string(),
        position: None,
    });
    assert_eq!(a, same);
    assert_ne!(a, other_value);
    assert_ne!(a, other_position);
    assert_ne!(a, other_variant);

    let p = Node::Paragraph(Paragraph {
        children: vec![a],
        position: None,
    });
    let q = Node::Paragraph(Paragraph {
        children: vec![same],
        position: None,
    });
    let r = Node::Paragraph(Paragraph {
        children: vec![other_value],
        position: None,
    });
    assert_eq!(p, q);
    assert_ne!(p, r);
}

#[test]
fn to_string_descends_into_nested_parents() {
    let tree = Node::Root(Root {
        children: vec![Node::Paragraph(Paragraph {
            children: vec![Node::Text(Text {
                value: "deep".to_string(),
                position: None,
            })],
            position: None,
        })],
        position: None,
    });
    assert_eq!(tree.to_string(), "deep");

    let void = Node::Break(Break { position: None });
    assert_eq!(void.to_string(), "");
}

#[test]
fn to_string_concatenates_content() {
    let parent = Node::Paragraph(Paragraph {
        children: vec![
            Node::Text(Text {
                value: "a".to_string(),
                position: None,
            }),
            Node::InlineCode(InlineCode {
                value: "b".to_string(),
                position: None,
            }),
            Node::Break(Break { position: None }),
            Node::Text(Text {
                value: "c".to_string(),
                position: None,
            }),
        ],
        position: None,
    });
    assert_eq!(parent.to_string(), "abc");
}
