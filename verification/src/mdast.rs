//! markdown syntax tree: [mdast][].
//!
//! [mdast]: https://github.com/syntax-tree/mdast

use crate::unist::Position;
use vstd::prelude::*;

verus! {

/// Relative byte index into a string, to an absolute byte index into the
/// whole document.
pub type Stop = (usize, usize);

/// Explicitness of a reference.
#[derive(Clone, Copy, Debug, Eq, PartialEq, Structural)]
pub enum ReferenceKind {
    /// The reference is implicit, its identifier inferred from its content.
    Shortcut,
    /// The reference is explicit, its identifier inferred from its content.
    Collapsed,
    /// The reference is explicit, its identifier explicitly set.
    Full,
}

/// Represents how phrasing content is aligned.
#[derive(Clone, Copy, Debug, Eq, PartialEq, Structural)]
pub enum AlignKind {
    /// Left alignment.
    ///
    /// See the `left` value of the `text-align` CSS property.
    Left,
    /// Right alignment.
    ///
    /// See the `right` value of the `text-align` CSS property.
    Right,
    /// Center alignment.
    ///
    /// See the `center` value of the `text-align` CSS property.
    Center,
    /// No alignment.
    ///
    /// Phrasing content is aligned as defined by the host environment.
    Unaligned,
}

/// Nodes.
#[derive(Debug, Eq)]
pub enum Node {
    // Document:
    /// Root.
    Root(Root),
    // Container:
    /// Block quote.
    BlockQuote(BlockQuote),
    /// Footnote definition.
    FootnoteDefinition(FootnoteDefinition),
    /// MDX: JSX element (container).
    MdxJsxFlowElement(MdxJsxFlowElement),
    /// List.
    List(List),
    // Frontmatter:
    /// MDX.js ESM.
    MdxjsEsm(MdxjsEsm),
    /// Toml.
    Toml(Toml),
    /// Yaml.
    Yaml(Yaml),
    // Phrasing:
    /// Break.
    Break(Break),
    /// Code (phrasing).
    InlineCode(InlineCode),
    /// Math (phrasing).
    InlineMath(InlineMath),
    /// Delete.
    Delete(Delete),
    /// Emphasis.
    Emphasis(Emphasis),
    /// MDX: expression (text).
    MdxTextExpression(MdxTextExpression),
    /// Footnote reference.
    FootnoteReference(FootnoteReference),
    /// Html (phrasing).
    Html(Html),
    /// Image.
    Image(Image),
    /// Image reference.
    ImageReference(ImageReference),
    /// MDX: JSX element (text).
    MdxJsxTextElement(MdxJsxTextElement),
    /// Link.
    Link(Link),
    /// Link reference.
    LinkReference(LinkReference),
    /// Strong.
    Strong(Strong),
    /// Text.
    Text(Text),
    // Flow:
    /// Code (flow).
    Code(Code),
    /// Math (flow).
    Math(Math),
    /// MDX: expression (flow).
    MdxFlowExpression(MdxFlowExpression),
    /// Heading.
    Heading(Heading),
    /// Table.
    Table(Table),
    /// Thematic break.
    ThematicBreak(ThematicBreak),
    // Table content.
    /// Table row.
    TableRow(TableRow),
    // Row content.
    /// Table cell.
    TableCell(TableCell),
    // List content.
    /// List item.
    ListItem(ListItem),
    // Content.
    /// Definition.
    Definition(Definition),
    /// Paragraph.
    Paragraph(Paragraph),
}

/// Holds exactly when the node is a parent variant: one that owns an
/// ordered sequence of child nodes.
pub open spec fn is_parent(n: Node) -> bool {
    match n {
        Node::Root(_) => true,
        Node::BlockQuote(_) => true,
        Node::FootnoteDefinition(_) => true,
        Node::MdxJsxFlowElement(_) => true,
        Node::List(_) => true,
        Node::Delete(_) => true,
        Node::Emphasis(_) => true,
        Node::MdxJsxTextElement(_) => true,
        Node::Link(_) => true,
        Node::LinkReference(_) => true,
        Node::Strong(_) => true,
        Node::Heading(_) => true,
        Node::Table(_) => true,
        Node::TableRow(_) => true,
        Node::TableCell(_) => true,
        Node::ListItem(_) => true,
        Node::Paragraph(_) => true,
        _ => false,
    }
}

/// The children of a parent node; the empty sequence for any other node.
pub open spec fn spec_children(n: Node) -> Seq<Node> {
    match n {
        Node::Root(x) => x.children@,
        Node::BlockQuote(x) => x.children@,
        Node::FootnoteDefinition(x) => x.children@,
        Node::MdxJsxFlowElement(x) => x.children@,
        Node::List(x) => x.children@,
        Node::Delete(x) => x.children@,
        Node::Emphasis(x) => x.children@,
        Node::MdxJsxTextElement(x) => x.children@,
        Node::Link(x) => x.children@,
        Node::LinkReference(x) => x.children@,
        Node::Strong(x) => x.children@,
        Node::Heading(x) => x.children@,
        Node::Table(x) => x.children@,
        Node::TableRow(x) => x.children@,
        Node::TableCell(x) => x.children@,
        Node::ListItem(x) => x.children@,
        Node::Paragraph(x) => x.children@,
        _ => Seq::empty(),
    }
}

/// The same node with its children replaced by `c`; a non-parent node is
/// returned unchanged.
pub open spec fn with_children(n: Node, c: Vec<Node>) -> Node {
    match n {
        Node::Root(x) => Node::Root(Root { children: c, ..x }),
        Node::BlockQuote(x) => Node::BlockQuote(BlockQuote { children: c, ..x }),
        Node::FootnoteDefinition(x) => Node::FootnoteDefinition(
            FootnoteDefinition { children: c, ..x },
        ),
        Node::MdxJsxFlowElement(x) => Node::MdxJsxFlowElement(
            MdxJsxFlowElement { children: c, ..x },
        ),
        Node::List(x) => Node::List(List { children: c, ..x }),
        Node::Delete(x) => Node::Delete(Delete { children: c, ..x }),
        Node::Emphasis(x) => Node::Emphasis(Emphasis { children: c, ..x }),
        Node::MdxJsxTextElement(x) => Node::MdxJsxTextElement(
            MdxJsxTextElement { children: c, ..x },
        ),
        Node::Link(x) => Node::Link(Link { children: c, ..x }),
        Node::LinkReference(x) => Node::LinkReference(LinkReference { children: c, ..x }),
        Node::Strong(x) => Node::Strong(Strong { children: c, ..x }),
        Node::Heading(x) => Node::Heading(Heading { children: c, ..x }),
        Node::Table(x) => Node::Table(Table { children: c, ..x }),
        Node::TableRow(x) => Node::TableRow(TableRow { children: c, ..x }),
        Node::TableCell(x) => Node::TableCell(TableCell { children: c, ..x }),
        Node::ListItem(x) => Node::ListItem(ListItem { children: c, ..x }),
        Node::Paragraph(x) => Node::Paragraph(Paragraph { children: c, ..x }),
        _ => n,
    }
}

/// The plain textual content of a node: for a parent, the concatenated
/// content of its children; for a literal, its value; for a void node, the
/// empty string.
pub open spec fn spec_to_string(n: Node) -> Seq<char>
    decreases n,
{
    match n {
        // Parents.
        Node::Root(x) => spec_children_to_string(x.children@),
        Node::BlockQuote(x) => spec_children_to_string(x.children@),
        Node::FootnoteDefinition(x) => spec_children_to_string(x.children@),
        Node::MdxJsxFlowElement(x) => spec_children_to_string(x.children@),
        Node::List(x) => spec_children_to_string(x.children@),
        Node::Delete(x) => spec_children_to_string(x.children@),
        Node::Emphasis(x) => spec_children_to_string(x.children@),
        Node::MdxJsxTextElement(x) => spec_children_to_string(x.children@),
        Node::Link(x) => spec_children_to_string(x.children@),
        Node::LinkReference(x) => spec_children_to_string(x.children@),
        Node::Strong(x) => spec_children_to_string(x.children@),
        Node::Heading(x) => spec_children_to_string(x.children@),
        Node::Table(x) => spec_children_to_string(x.children@),
        Node::TableRow(x) => spec_children_to_string(x.children@),
        Node::TableCell(x) => spec_children_to_string(x.children@),
        Node::ListItem(x) => spec_children_to_string(x.children@),
        Node::Paragraph(x) => spec_children_to_string(x.children@),
        // Literals.
        Node::MdxjsEsm(x) => x.value@,
        Node::Toml(x) => x.value@,
        Node::Yaml(x) => x.value@,
        Node::InlineCode(x) => x.value@,
        Node::InlineMath(x) => x.value@,
        Node::MdxTextExpression(x) => x.value@,
        Node::Html(x) => x.value@,
        Node::Text(x) => x.value@,
        Node::Code(x) => x.value@,
        Node::Math(x) => x.value@,
        Node::MdxFlowExpression(x) => x.value@,
        // Voids.
        Node::Break(_) => Seq::empty(),
        Node::FootnoteReference(_) => Seq::empty(),
        Node::Image(_) => Seq::empty(),
        Node::ImageReference(_) => Seq::empty(),
        Node::ThematicBreak(_) => Seq::empty(),
        Node::Definition(_) => Seq::empty(),
    }
}

/// The concatenated textual content of a sequence of nodes, in order.
pub open spec fn spec_children_to_string(s: Seq<Node>) -> Seq<char>
    decreases s,
{
    if s.len() == 0 {
        Seq::empty()
    } else {
        spec_children_to_string(s.drop_last()) + spec_to_string(s.last())
    }
}

/// The positional info carried by the node, whichever its variant.
pub open spec fn spec_position(n: Node) -> Option<Position> {
    match n {
        Node::Root(x) => x.position,
        Node::BlockQuote(x) => x.position,
        Node::FootnoteDefinition(x) => x.position,
        Node::MdxJsxFlowElement(x) => x.position,
        Node::List(x) => x.position,
        Node::MdxjsEsm(x) => x.position,
        Node::Toml(x) => x.position,
        Node::Yaml(x) => x.position,
        Node::Break(x) => x.position,
        Node::InlineCode(x) => x.position,
        Node::InlineMath(x) => x.position,
        Node::Delete(x) => x.position,
        Node::Emphasis(x) => x.position,
        Node::MdxTextExpression(x) => x.position,
        Node::FootnoteReference(x) => x.position,
        Node::Html(x) => x.position,
        Node::Image(x) => x.position,
        Node::ImageReference(x) => x.position,
        Node::MdxJsxTextElement(x) => x.position,
        Node::Link(x) => x.position,
        Node::LinkReference(x) => x.position,
        Node::Strong(x) => x.position,
        Node::Text(x) => x.position,
        Node::Code(x) => x.position,
        Node::Math(x) => x.position,
        Node::MdxFlowExpression(x) => x.position,
        Node::Heading(x) => x.position,
        Node::Table(x) => x.position,
        Node::ThematicBreak(x) => x.position,
        Node::TableRow(x) => x.position,
        Node::TableCell(x) => x.position,
        Node::ListItem(x) => x.position,
        Node::Definition(x) => x.position,
        Node::Paragraph(x) => x.position,
    }
}

/// The same node with its positional info replaced by `p`.
pub open spec fn with_position(n: Node, p: Option<Position>) -> Node {
    match n {
        Node::Root(x) => Node::Root(Root { position: p, ..x }),
        Node::BlockQuote(x) => Node::BlockQuote(BlockQuote { position: p, ..x }),
        Node::FootnoteDefinition(x) => Node::FootnoteDefinition(
            FootnoteDefinition { position: p, ..x },
        ),
        Node::MdxJsxFlowElement(x) => Node::MdxJsxFlowElement(
            MdxJsxFlowElement { position: p, ..x },
        ),
        Node::List(x) => Node::List(List { position: p, ..x }),
        Node::MdxjsEsm(x) => Node::MdxjsEsm(MdxjsEsm { position: p, ..x }),
        Node::Toml(x) => Node::Toml(Toml { position: p, ..x }),
        Node::Yaml(x) => Node::Yaml(Yaml { position: p, ..x }),
        Node::Break(x) => Node::Break(Break { position: p, ..x }),
        Node::InlineCode(x) => Node::InlineCode(InlineCode { position: p, ..x }),
        Node::InlineMath(x) => Node::InlineMath(InlineMath { position: p, ..x }),
        Node::Delete(x) => Node::Delete(Delete { position: p, ..x }),
        Node::Emphasis(x) => Node::Emphasis(Emphasis { position: p, ..x }),
        Node::MdxTextExpression(x) => Node::MdxTextExpression(
            MdxTextExpression { position: p, ..x },
        ),
        Node::FootnoteReference(x) => Node::FootnoteReference(
            FootnoteReference { position: p, ..x },
        ),
        Node::Html(x) => Node::Html(Html { position: p, ..x }),
        Node::Image(x) => Node::Image(Image { position: p, ..x }),
        Node::ImageReference(x) => Node::ImageReference(ImageReference { position: p, ..x }),
        Node::MdxJsxTextElement(x) => Node::MdxJsxTextElement(
            MdxJsxTextElement { position: p, ..x },
        ),
        Node::Link(x) => Node::Link(Link { position: p, ..x }),
        Node::LinkReference(x) => Node::LinkReference(LinkReference { position: p, ..x }),
        Node::Strong(x) => Node::Strong(Strong { position: p, ..x }),
        Node::Text(x) => Node::Text(Text { position: p, ..x }),
        Node::Code(x) => Node::Code(Code { position: p, ..x }),
        Node::Math(x) => Node::Math(Math { position: p, ..x }),
        Node::MdxFlowExpression(x) => Node::MdxFlowExpression(
            MdxFlowExpression { position: p, ..x },
        ),
        Node::Heading(x) => Node::Heading(Heading { position: p, ..x }),
        Node::Table(x) => Node::Table(Table { position: p, ..x }),
        Node::ThematicBreak(x) => Node::ThematicBreak(ThematicBreak { position: p, ..x }),
        Node::TableRow(x) => Node::TableRow(TableRow { position: p, ..x }),
        Node::TableCell(x) => Node::TableCell(TableCell { position: p, ..x }),
        Node::ListItem(x) => Node::ListItem(ListItem { position: p, ..x }),
        Node::Definition(x) => Node::Definition(Definition { position: p, ..x }),
        Node::Paragraph(x) => Node::Paragraph(Paragraph { position: p, ..x }),
    }
}

/// Concatenates the textual content of the nodes, in order.
pub fn children_to_string(children: &[Node]) -> (r: String)
    ensures
        r@ == spec_children_to_string(children@),
    decreases children@,
{
    let mut r = String::new();
    let mut i: usize = 0;
    while i < children.len()
        invariant
            i <= children@.len(),
            r@ == spec_children_to_string(children@.subrange(0, i as int)),
        decreases children@.len() - i,
    {
        proof {
            assert(decreases_to!(children@ => children@[i as int]));
        }
        let s = children[i].to_string();
        r.append(s.as_str());
        proof {
            let pre = children@.subrange(0, i as int);
            let cur = children@.subrange(0, i as int + 1);
            assert(cur.drop_last() =~= pre);
            assert(cur.last() == children@[i as int]);
        }
        i += 1;
    }
    proof {
        assert(children@.subrange(0, children@.len() as int) =~= children@);
    }
    r
}

/// Structural equality of two optional strings: same presence, equal text.
pub open spec fn str_opt_eq(a: Option<String>, b: Option<String>) -> bool {
    match (a, b) {
        (Option::Some(x), Option::Some(y)) => x@ == y@,
        (Option::None, Option::None) => true,
        _ => false,
    }
}

/// Structural equality of two attribute values: same shape and equal
/// contents.
pub open spec fn value_eq(a: AttributeValue, b: AttributeValue) -> bool {
    match (a, b) {
        (AttributeValue::Expression(sa, va), AttributeValue::Expression(sb, vb)) => sa@ == sb@
            && va@ == vb@,
        (AttributeValue::Literal(sa), AttributeValue::Literal(sb)) => sa@ == sb@,
        _ => false,
    }
}

/// Structural equality of two optional attribute values.
pub open spec fn value_opt_eq(a: Option<AttributeValue>, b: Option<AttributeValue>) -> bool {
    match (a, b) {
        (Option::Some(va), Option::Some(vb)) => value_eq(va, vb),
        (Option::None, Option::None) => true,
        _ => false,
    }
}

/// Structural equality of two pieces of attribute content: same shape and
/// equal contents.
pub open spec fn attr_eq(a: AttributeContent, b: AttributeContent) -> bool {
    match (a, b) {
        (AttributeContent::Expression(sa, va), AttributeContent::Expression(sb, vb)) => sa@ == sb@
            && va@ == vb@,
        (AttributeContent::Property(pa), AttributeContent::Property(pb)) => pa.name@ == pb.name@
            && value_opt_eq(pa.value, pb.value),
        _ => false,
    }
}

/// Pairwise structural equality of two attribute sequences.
pub open spec fn attr_seq_eq(a: Seq<AttributeContent>, b: Seq<AttributeContent>) -> bool {
    a.len() == b.len() && forall|i: int| 0 <= i < a.len() ==> attr_eq(a[i], b[i])
}

/// Structural equality of two nodes: the same variant, equal payload
/// fields, and pairwise structurally equal children. This is what `==`
/// computes on nodes. It compares everything a node holds and nothing
/// else: the identity of the heap allocations behind children, strings,
/// stops and attributes is not distinguished.
pub open spec fn deep_eq(a: Node, b: Node) -> bool
    decreases a,
{
    match (a, b) {
        // Parents.
        (Node::Root(x), Node::Root(y)) => deep_eq_seq(x.children@, y.children@) && x.position
            == y.position,
        (Node::BlockQuote(x), Node::BlockQuote(y)) => deep_eq_seq(x.children@, y.children@)
            && x.position == y.position,
        (Node::FootnoteDefinition(x), Node::FootnoteDefinition(y)) => deep_eq_seq(
            x.children@,
            y.children@,
        ) && x.position == y.position && x.identifier@ == y.identifier@ && str_opt_eq(
            x.label,
            y.label,
        ),
        (Node::MdxJsxFlowElement(x), Node::MdxJsxFlowElement(y)) => deep_eq_seq(
            x.children@,
            y.children@,
        ) && x.position == y.position && str_opt_eq(x.name, y.name) && attr_seq_eq(
            x.attributes@,
            y.attributes@,
        ),
        (Node::List(x), Node::List(y)) => deep_eq_seq(x.children@, y.children@) && x.position
            == y.position && x.ordered == y.ordered && x.start == y.start && x.spread == y.spread,
        (Node::Delete(x), Node::Delete(y)) => deep_eq_seq(x.children@, y.children@) && x.position
            == y.position,
        (Node::Emphasis(x), Node::Emphasis(y)) => deep_eq_seq(x.children@, y.children@)
            && x.position == y.position,
        (Node::MdxJsxTextElement(x), Node::MdxJsxTextElement(y)) => deep_eq_seq(
            x.children@,
            y.children@,
        ) && x.position == y.position && str_opt_eq(x.name, y.name) && attr_seq_eq(
            x.attributes@,
            y.attributes@,
        ),
        (Node::Link(x), Node::Link(y)) => deep_eq_seq(x.children@, y.children@) && x.position
            == y.position && x.url@ == y.url@ && str_opt_eq(x.title, y.title),
        (Node::LinkReference(x), Node::LinkReference(y)) => deep_eq_seq(x.children@, y.children@)
            && x.position == y.position && x.reference_kind == y.reference_kind && x.identifier@
            == y.identifier@ && str_opt_eq(x.label, y.label),
        (Node::Strong(x), Node::Strong(y)) => deep_eq_seq(x.children@, y.children@) && x.position
            == y.position,
        (Node::Heading(x), Node::Heading(y)) => deep_eq_seq(x.children@, y.children@)
            && x.position == y.position && x.depth == y.depth,
        (Node::Table(x), Node::Table(y)) => deep_eq_seq(x.children@, y.children@) && x.position
            == y.position && x.align@ == y.align@,
        (Node::TableRow(x), Node::TableRow(y)) => deep_eq_seq(x.children@, y.children@)
            && x.position == y.position,
        (Node::TableCell(x), Node::TableCell(y)) => deep_eq_seq(x.children@, y.children@)
            && x.position == y.position,
        (Node::ListItem(x), Node::ListItem(y)) => deep_eq_seq(x.children@, y.children@)
            && x.position == y.position && x.spread == y.spread && x.checked == y.checked,
        (Node::Paragraph(x), Node::Paragraph(y)) => deep_eq_seq(x.children@, y.children@)
            && x.position == y.position,
        // Literals carrying stops.
        (Node::MdxjsEsm(x), Node::MdxjsEsm(y)) => x.value@ == y.value@ && x.position == y.position
            && x.stops@ == y.stops@,
        (Node::MdxFlowExpression(x), Node::MdxFlowExpression(y)) => x.value@ == y.value@
            && x.position == y.position && x.stops@ == y.stops@,
        (Node::MdxTextExpression(x), Node::MdxTextExpression(y)) => x.value@ == y.value@
            && x.position == y.position && x.stops@ == y.stops@,
        // Plain literals.
        (Node::Toml(x), Node::Toml(y)) => x.value@ == y.value@ && x.position == y.position,
        (Node::Yaml(x), Node::Yaml(y)) => x.value@ == y.value@ && x.position == y.position,
        (Node::InlineCode(x), Node::InlineCode(y)) => x.value@ == y.value@ && x.position
            == y.position,
        (Node::InlineMath(x), Node::InlineMath(y)) => x.value@ == y.value@ && x.position
            == y.position,
        (Node::Html(x), Node::Html(y)) => x.value@ == y.value@ && x.position == y.position,
        (Node::Text(x), Node::Text(y)) => x.value@ == y.value@ && x.position == y.position,
        (Node::Code(x), Node::Code(y)) => x.value@ == y.value@ && x.position == y.position
            && str_opt_eq(x.lang, y.lang) && str_opt_eq(x.meta, y.meta),
        (Node::Math(x), Node::Math(y)) => x.value@ == y.value@ && x.position == y.position
            && str_opt_eq(x.meta, y.meta),
        // Voids.
        (Node::Break(x), Node::Break(y)) => x.position == y.position,
        (Node::ThematicBreak(x), Node::ThematicBreak(y)) => x.position == y.position,
        (Node::FootnoteReference(x), Node::FootnoteReference(y)) => x.position == y.position
            && x.identifier@ == y.identifier@ && str_opt_eq(x.label, y.label),
        (Node::Image(x), Node::Image(y)) => x.position == y.position && x.alt@ == y.alt@ && x.url@
            == y.url@ && str_opt_eq(x.title, y.title),
        (Node::ImageReference(x), Node::ImageReference(y)) => x.position == y.position && x.alt@
            == y.alt@ && x.reference_kind == y.reference_kind && x.identifier@ == y.identifier@
            && str_opt_eq(x.label, y.label),
        (Node::Definition(x), Node::Definition(y)) => x.position == y.position && x.url@ == y.url@
            && str_opt_eq(x.title, y.title) && x.identifier@ == y.identifier@ && str_opt_eq(
            x.label,
            y.label,
        ),
        _ => false,
    }
}

/// Pairwise structural equality of two node sequences.
pub open spec fn deep_eq_seq(a: Seq<Node>, b: Seq<Node>) -> bool
    decreases a,
{
    a.len() == b.len() && forall|i: int| 0 <= i < a.len() ==> deep_eq(#[trigger] a[i], b[i])
}

/// Law: every node is structurally equal to itself.
pub proof fn lemma_deep_eq_reflexive(n: Node)
    ensures
        deep_eq(n, n),
    decreases n,
{
    match n {
        Node::Root(x) => lemma_deep_eq_seq_reflexive(x.children@),
        Node::BlockQuote(x) => lemma_deep_eq_seq_reflexive(x.children@),
        Node::FootnoteDefinition(x) => lemma_deep_eq_seq_reflexive(x.children@),
        Node::MdxJsxFlowElement(x) => lemma_deep_eq_seq_reflexive(x.children@),
        Node::List(x) => lemma_deep_eq_seq_reflexive(x.children@),
        Node::Delete(x) => lemma_deep_eq_seq_reflexive(x.children@),
        Node::Emphasis(x) => lemma_deep_eq_seq_reflexive(x.children@),
        Node::MdxJsxTextElement(x) => lemma_deep_eq_seq_reflexive(x.children@),
        Node::Link(x) => lemma_deep_eq_seq_reflexive(x.children@),
        Node::LinkReference(x) => lemma_deep_eq_seq_reflexive(x.children@),
        Node::Strong(x) => lemma_deep_eq_seq_reflexive(x.children@),
        Node::Heading(x) => lemma_deep_eq_seq_reflexive(x.children@),
        Node::Table(x) => lemma_deep_eq_seq_reflexive(x.children@),
        Node::TableRow(x) => lemma_deep_eq_seq_reflexive(x.children@),
        Node::TableCell(x) => lemma_deep_eq_seq_reflexive(x.children@),
        Node::ListItem(x) => lemma_deep_eq_seq_reflexive(x.children@),
        Node::Paragraph(x) => lemma_deep_eq_seq_reflexive(x.children@),
        _ => {},
    }
}

/// Law: every node sequence is structurally equal to itself.
pub proof fn lemma_deep_eq_seq_reflexive(s: Seq<Node>)
    ensures
        deep_eq_seq(s, s),
    decreases s,
{
    assert forall|i: int| 0 <= i < s.len() implies deep_eq(#[trigger] s[i], s[i]) by {
        assert(decreases_to!(s => s[i]));
        lemma_deep_eq_reflexive(s[i]);
    }
}

/// Law: structural equality is symmetric.
pub proof fn lemma_deep_eq_symmetric(a: Node, b: Node)
    ensures
        deep_eq(a, b) == deep_eq(b, a),
    decreases a,
{
    match (a, b) {
        (Node::Root(x), Node::Root(y)) => lemma_deep_eq_seq_symmetric(x.children@, y.children@),
        (Node::BlockQuote(x), Node::BlockQuote(y)) => lemma_deep_eq_seq_symmetric(x.children@, y.children@),
        (Node::FootnoteDefinition(x), Node::FootnoteDefinition(y)) => lemma_deep_eq_seq_symmetric(x.children@, y.children@),
        (Node::MdxJsxFlowElement(x), Node::MdxJsxFlowElement(y)) => lemma_deep_eq_seq_symmetric(x.children@, y.children@),
        (Node::List(x), Node::List(y)) => lemma_deep_eq_seq_symmetric(x.children@, y.children@),
        (Node::Delete(x), Node::Delete(y)) => lemma_deep_eq_seq_symmetric(x.children@, y.children@),
        (Node::Emphasis(x), Node::Emphasis(y)) => lemma_deep_eq_seq_symmetric(x.children@, y.children@),
        (Node::MdxJsxTextElement(x), Node::MdxJsxTextElement(y)) => lemma_deep_eq_seq_symmetric(x.children@, y.children@),
        (Node::Link(x), Node::Link(y)) => lemma_deep_eq_seq_symmetric(x.children@, y.children@),
        (Node::LinkReference(x), Node::LinkReference(y)) => lemma_deep_eq_seq_symmetric(x.children@, y.children@),
        (Node::Strong(x), Node::Strong(y)) => lemma_deep_eq_seq_symmetric(x.children@, y.children@),
        (Node::Heading(x), Node::Heading(y)) => lemma_deep_eq_seq_symmetric(x.children@, y.children@),
        (Node::Table(x), Node::Table(y)) => lemma_deep_eq_seq_symmetric(x.children@, y.children@),
        (Node::TableRow(x), Node::TableRow(y)) => lemma_deep_eq_seq_symmetric(x.children@, y.children@),
        (Node::TableCell(x), Node::TableCell(y)) => lemma_deep_eq_seq_symmetric(x.children@, y.children@),
        (Node::ListItem(x), Node::ListItem(y)) => lemma_deep_eq_seq_symmetric(x.children@, y.children@),
        (Node::Paragraph(x), Node::Paragraph(y)) => lemma_deep_eq_seq_symmetric(x.children@, y.children@),
        _ => {},
    }
}

/// Law: structural equality of node sequences is symmetric.
pub proof fn lemma_deep_eq_seq_symmetric(x: Seq<Node>, y: Seq<Node>)
    ensures
        deep_eq_seq(x, y) == deep_eq_seq(y, x),
    decreases x,
{
    if x.len() == y.len() {
        assert forall|i: int| 0 <= i < x.len() implies deep_eq(#[trigger] x[i], y[i]) == deep_eq(
            #[trigger] y[i],
            x[i],
        ) by {
            assert(decreases_to!(x => x[i]));
            lemma_deep_eq_symmetric(x[i], y[i]);
        }
        if deep_eq_seq(x, y) {
            assert forall|i: int| 0 <= i < y.len() implies deep_eq(#[trigger] y[i], x[i]) by {}
        }
        if deep_eq_seq(y, x) {
            assert forall|i: int| 0 <= i < x.len() implies deep_eq(#[trigger] x[i], y[i]) by {}
        }
    }
}

/// Law: structural equality is transitive.
pub proof fn lemma_deep_eq_transitive(a: Node, b: Node, c: Node)
    requires
        deep_eq(a, b),
        deep_eq(b, c),
    ensures
        deep_eq(a, c),
    decreases a,
{
    match (a, b, c) {
        (Node::Root(x), Node::Root(y), Node::Root(z)) => lemma_deep_eq_seq_transitive(
            x.children@,
            y.children@,
            z.children@,
        ),
        (Node::BlockQuote(x), Node::BlockQuote(y), Node::BlockQuote(z)) => lemma_deep_eq_seq_transitive(
            x.children@,
            y.children@,
            z.children@,
        ),
        (Node::FootnoteDefinition(x), Node::FootnoteDefinition(y), Node::FootnoteDefinition(z)) => lemma_deep_eq_seq_transitive(
            x.children@,
            y.children@,
            z.children@,
        ),
        (Node::MdxJsxFlowElement(x), Node::MdxJsxFlowElement(y), Node::MdxJsxFlowElement(z)) => lemma_deep_eq_seq_transitive(
            x.children@,
            y.children@,
            z.children@,
        ),
        (Node::List(x), Node::List(y), Node::List(z)) => lemma_deep_eq_seq_transitive(
            x.children@,
            y.children@,
            z.children@,
        ),
        (Node::Delete(x), Node::Delete(y), Node::Delete(z)) => lemma_deep_eq_seq_transitive(
            x.children@,
            y.children@,
            z.children@,
        ),
        (Node::Emphasis(x), Node::Emphasis(y), Node::Emphasis(z)) => lemma_deep_eq_seq_transitive(
            x.children@,
            y.children@,
            z.children@,
        ),
        (Node::MdxJsxTextElement(x), Node::MdxJsxTextElement(y), Node::MdxJsxTextElement(z)) => lemma_deep_eq_seq_transitive(
            x.children@,
            y.children@,
            z.children@,
        ),
        (Node::Link(x), Node::Link(y), Node::Link(z)) => lemma_deep_eq_seq_transitive(
            x.children@,
            y.children@,
            z.children@,
        ),
        (Node::LinkReference(x), Node::LinkReference(y), Node::LinkReference(z)) => lemma_deep_eq_seq_transitive(
            x.children@,
            y.children@,
            z.children@,
        ),
        (Node::Strong(x), Node::Strong(y), Node::Strong(z)) => lemma_deep_eq_seq_transitive(
            x.children@,
            y.children@,
            z.children@,
        ),
        (Node::Heading(x), Node::Heading(y), Node::Heading(z)) => lemma_deep_eq_seq_transitive(
            x.children@,
            y.children@,
            z.children@,
        ),
        (Node::Table(x), Node::Table(y), Node::Table(z)) => lemma_deep_eq_seq_transitive(
            x.children@,
            y.children@,
            z.children@,
        ),
        (Node::TableRow(x), Node::TableRow(y), Node::TableRow(z)) => lemma_deep_eq_seq_transitive(
            x.children@,
            y.children@,
            z.children@,
        ),
        (Node::TableCell(x), Node::TableCell(y), Node::TableCell(z)) => lemma_deep_eq_seq_transitive(
            x.children@,
            y.children@,
            z.children@,
        ),
        (Node::ListItem(x), Node::ListItem(y), Node::ListItem(z)) => lemma_deep_eq_seq_transitive(
            x.children@,
            y.children@,
            z.children@,
        ),
        (Node::Paragraph(x), Node::Paragraph(y), Node::Paragraph(z)) => lemma_deep_eq_seq_transitive(
            x.children@,
            y.children@,
            z.children@,
        ),
        _ => {},
    }
}

/// Law: structural equality of node sequences is transitive.
pub proof fn lemma_deep_eq_seq_transitive(x: Seq<Node>, y: Seq<Node>, z: Seq<Node>)
    requires
        deep_eq_seq(x, y),
        deep_eq_seq(y, z),
    ensures
        deep_eq_seq(x, z),
    decreases x,
{
    assert forall|i: int| 0 <= i < x.len() implies deep_eq(#[trigger] x[i], z[i]) by {
        assert(decreases_to!(x => x[i]));
        lemma_deep_eq_transitive(x[i], y[i], z[i]);
    }
}

/// Law: structurally equal nodes are indistinguishable to the accessors:
/// they have the same variant kind, the same positional info, the same
/// textual content, and structurally equal children.
pub proof fn lemma_deep_eq_same_content(a: Node, b: Node)
    requires
        deep_eq(a, b),
    ensures
        is_parent(a) == is_parent(b),
        spec_position(a) == spec_position(b),
        deep_eq_seq(spec_children(a), spec_children(b)),
        spec_to_string(a) == spec_to_string(b),
    decreases a,
{
    match (a, b) {
        (Node::Root(x), Node::Root(y)) => lemma_deep_eq_seq_same_content(x.children@, y.children@),
        (Node::BlockQuote(x), Node::BlockQuote(y)) => lemma_deep_eq_seq_same_content(
            x.children@,
            y.children@,
        ),
        (Node::FootnoteDefinition(x), Node::FootnoteDefinition(y)) => lemma_deep_eq_seq_same_content(
            x.children@,
            y.children@,
        ),
        (Node::MdxJsxFlowElement(x), Node::MdxJsxFlowElement(y)) => lemma_deep_eq_seq_same_content(
            x.children@,
            y.children@,
        ),
        (Node::List(x), Node::List(y)) => lemma_deep_eq_seq_same_content(x.children@, y.children@),
        (Node::Delete(x), Node::Delete(y)) => lemma_deep_eq_seq_same_content(
            x.children@,
            y.children@,
        ),
        (Node::Emphasis(x), Node::Emphasis(y)) => lemma_deep_eq_seq_same_content(
            x.children@,
            y.children@,
        ),
        (Node::MdxJsxTextElement(x), Node::MdxJsxTextElement(y)) => lemma_deep_eq_seq_same_content(
            x.children@,
            y.children@,
        ),
        (Node::Link(x), Node::Link(y)) => lemma_deep_eq_seq_same_content(x.children@, y.children@),
        (Node::LinkReference(x), Node::LinkReference(y)) => lemma_deep_eq_seq_same_content(
            x.children@,
            y.children@,
        ),
        (Node::Strong(x), Node::Strong(y)) => lemma_deep_eq_seq_same_content(
            x.children@,
            y.children@,
        ),
        (Node::Heading(x), Node::Heading(y)) => lemma_deep_eq_seq_same_content(
            x.children@,
            y.children@,
        ),
        (Node::Table(x), Node::Table(y)) => lemma_deep_eq_seq_same_content(
            x.children@,
            y.children@,
        ),
        (Node::TableRow(x), Node::TableRow(y)) => lemma_deep_eq_seq_same_content(
            x.children@,
            y.children@,
        ),
        (Node::TableCell(x), Node::TableCell(y)) => lemma_deep_eq_seq_same_content(
            x.children@,
            y.children@,
        ),
        (Node::ListItem(x), Node::ListItem(y)) => lemma_deep_eq_seq_same_content(
            x.children@,
            y.children@,
        ),
        (Node::Paragraph(x), Node::Paragraph(y)) => lemma_deep_eq_seq_same_content(
            x.children@,
            y.children@,
        ),
        _ => {},
    }
}

/// Law: pairwise structurally equal node sequences have the same
/// concatenated textual content.
pub proof fn lemma_deep_eq_seq_same_content(x: Seq<Node>, y: Seq<Node>)
    requires
        deep_eq_seq(x, y),
    ensures
        spec_children_to_string(x) == spec_children_to_string(y),
    decreases x,
{
    if x.len() > 0 {
        assert(deep_eq_seq(x.drop_last(), y.drop_last()));
        lemma_deep_eq_seq_same_content(x.drop_last(), y.drop_last());
        lemma_deep_eq_same_content(x.last(), y.last());
    }
}

/// Law: replacing the positional info replaces exactly that. The node keeps
/// its variant, its children and its textual content, and reading the
/// position back yields what was set.
pub proof fn lemma_with_position(n: Node, p: Option<Position>)
    ensures
        spec_position(with_position(n, p)) == p,
        is_parent(with_position(n, p)) == is_parent(n),
        spec_children(with_position(n, p)) == spec_children(n),
        spec_to_string(with_position(n, p)) == spec_to_string(n),
{
}

/// Law: replacing the children of a parent replaces exactly them. The node
/// keeps its variant and its positional info, and reading the children back
/// yields what was set.
pub proof fn lemma_with_children(n: Node, c: Vec<Node>)
    requires
        is_parent(n),
    ensures
        is_parent(with_children(n, c)),
        spec_children(with_children(n, c)) == c@,
        spec_position(with_children(n, c)) == spec_position(n),
{
}

impl Node {
    /// The plain textual content of the node: for a parent, the concatenated
    /// content of its children; for a literal, its value; for a void node,
    /// the empty string.
    pub fn to_string(&self) -> (r: String)
        ensures
            r@ == spec_to_string(*self),
        decreases *self,
    {
        match self {
            // Parents.
            Node::Root(x) => children_to_string(x.children.as_slice()),
            Node::BlockQuote(x) => children_to_string(x.children.as_slice()),
            Node::FootnoteDefinition(x) => children_to_string(x.children.as_slice()),
            Node::MdxJsxFlowElement(x) => children_to_string(x.children.as_slice()),
            Node::List(x) => children_to_string(x.children.as_slice()),
            Node::Delete(x) => children_to_string(x.children.as_slice()),
            Node::Emphasis(x) => children_to_string(x.children.as_slice()),
            Node::MdxJsxTextElement(x) => children_to_string(x.children.as_slice()),
            Node::Link(x) => children_to_string(x.children.as_slice()),
            Node::LinkReference(x) => children_to_string(x.children.as_slice()),
            Node::Strong(x) => children_to_string(x.children.as_slice()),
            Node::Heading(x) => children_to_string(x.children.as_slice()),
            Node::Table(x) => children_to_string(x.children.as_slice()),
            Node::TableRow(x) => children_to_string(x.children.as_slice()),
            Node::TableCell(x) => children_to_string(x.children.as_slice()),
            Node::ListItem(x) => children_to_string(x.children.as_slice()),
            Node::Paragraph(x) => children_to_string(x.children.as_slice()),
            // Literals.
            Node::MdxjsEsm(x) => x.value.clone(),
            Node::Toml(x) => x.value.clone(),
            Node::Yaml(x) => x.value.clone(),
            Node::InlineCode(x) => x.value.clone(),
            Node::InlineMath(x) => x.value.clone(),
            Node::MdxTextExpression(x) => x.value.clone(),
            Node::Html(x) => x.value.clone(),
            Node::Text(x) => x.value.clone(),
            Node::Code(x) => x.value.clone(),
            Node::Math(x) => x.value.clone(),
            Node::MdxFlowExpression(x) => x.value.clone(),
            // Voids.
            Node::Break(_) => String::new(),
            Node::FootnoteReference(_) => String::new(),
            Node::Image(_) => String::new(),
            Node::ImageReference(_) => String::new(),
            Node::ThematicBreak(_) => String::new(),
            Node::Definition(_) => String::new(),
        }
    }

    /// The children of a parent node; `None` for literal and void nodes.
    #[must_use]
    pub fn children(&self) -> (r: Option<&Vec<Node>>)
        ensures
            match r {
                Option::Some(children) => is_parent(*self) && children@ == spec_children(*self),
                Option::None => !is_parent(*self),
            },
    {
        match self {
            // Parent.
            Node::Root(x) => Some(&x.children),
            Node::Paragraph(x) => Some(&x.children),
            Node::Heading(x) => Some(&x.children),
            Node::BlockQuote(x) => Some(&x.children),
            Node::List(x) => Some(&x.children),
            Node::ListItem(x) => Some(&x.children),
            Node::Emphasis(x) => Some(&x.children),
            Node::Strong(x) => Some(&x.children),
            Node::Link(x) => Some(&x.children),
            Node::LinkReference(x) => Some(&x.children),
            Node::FootnoteDefinition(x) => Some(&x.children),
            Node::Table(x) => Some(&x.children),
            Node::TableRow(x) => Some(&x.children),
            Node::TableCell(x) => Some(&x.children),
            Node::Delete(x) => Some(&x.children),
            Node::MdxJsxFlowElement(x) => Some(&x.children),
            Node::MdxJsxTextElement(x) => Some(&x.children),
            // Non-parent.
            _ => None,
        }
    }

    /// Mutable access to the children of a parent node; `None` for literal
    /// and void nodes.
    pub fn children_mut(&mut self) -> (r: Option<&mut Vec<Node>>)
        ensures
            match r {
                Option::Some(children) => {
                    &&& is_parent(*old(self))
                    &&& children@ == spec_children(*old(self))
                    &&& *final(self) == with_children(*old(self), *final(children))
                },
                Option::None => !is_parent(*old(self)) && *final(self) == *old(self),
            },
    {
        match self {
            // Parent.
            Node::Root(x) => Some(&mut x.children),
            Node::Paragraph(x) => Some(&mut x.children),
            Node::Heading(x) => Some(&mut x.children),
            Node::BlockQuote(x) => Some(&mut x.children),
            Node::List(x) => Some(&mut x.children),
            Node::ListItem(x) => Some(&mut x.children),
            Node::Emphasis(x) => Some(&mut x.children),
            Node::Strong(x) => Some(&mut x.children),
            Node::Link(x) => Some(&mut x.children),
            Node::LinkReference(x) => Some(&mut x.children),
            Node::FootnoteDefinition(x) => Some(&mut x.children),
            Node::Table(x) => Some(&mut x.children),
            Node::TableRow(x) => Some(&mut x.children),
            Node::TableCell(x) => Some(&mut x.children),
            Node::Delete(x) => Some(&mut x.children),
            Node::MdxJsxFlowElement(x) => Some(&mut x.children),
            Node::MdxJsxTextElement(x) => Some(&mut x.children),
            // Non-parent.
            _ => None,
        }
    }

    /// The positional info of the node, when it has any.
    #[must_use]
    pub fn position(&self) -> (r: Option<&Position>)
        ensures
            match r {
                Option::Some(p) => spec_position(*self) == Option::Some(*p),
                Option::None => spec_position(*self) is None,
            },
    {
        match self {
            Node::Root(x) => x.position.as_ref(),
            Node::BlockQuote(x) => x.position.as_ref(),
            Node::FootnoteDefinition(x) => x.position.as_ref(),
            Node::MdxJsxFlowElement(x) => x.position.as_ref(),
            Node::List(x) => x.position.as_ref(),
            Node::MdxjsEsm(x) => x.position.as_ref(),
            Node::Toml(x) => x.position.as_ref(),
            Node::Yaml(x) => x.position.as_ref(),
            Node::Break(x) => x.position.as_ref(),
            Node::InlineCode(x) => x.position.as_ref(),
            Node::InlineMath(x) => x.position.as_ref(),
            Node::Delete(x) => x.position.as_ref(),
            Node::Emphasis(x) => x.position.as_ref(),
            Node::MdxTextExpression(x) => x.position.as_ref(),
            Node::FootnoteReference(x) => x.position.as_ref(),
            Node::Html(x) => x.position.as_ref(),
            Node::Image(x) => x.position.as_ref(),
            Node::ImageReference(x) => x.position.as_ref(),
            Node::MdxJsxTextElement(x) => x.position.as_ref(),
            Node::Link(x) => x.position.as_ref(),
            Node::LinkReference(x) => x.position.as_ref(),
            Node::Strong(x) => x.position.as_ref(),
            Node::Text(x) => x.position.as_ref(),
            Node::Code(x) => x.position.as_ref(),
            Node::Math(x) => x.position.as_ref(),
            Node::MdxFlowExpression(x) => x.position.as_ref(),
            Node::Heading(x) => x.position.as_ref(),
            Node::Table(x) => x.position.as_ref(),
            Node::ThematicBreak(x) => x.position.as_ref(),
            Node::TableRow(x) => x.position.as_ref(),
            Node::TableCell(x) => x.position.as_ref(),
            Node::ListItem(x) => x.position.as_ref(),
            Node::Definition(x) => x.position.as_ref(),
            Node::Paragraph(x) => x.position.as_ref(),
        }
    }

    /// Mutable access to the positional info of the node, when it has any.
    pub fn position_mut(&mut self) -> (r: Option<&mut Position>)
        ensures
            match r {
                Option::Some(p) => {
                    &&& spec_position(*old(self)) == Option::Some(*p)
                    &&& *final(self) == with_position(*old(self), Option::Some(*final(p)))
                },
                Option::None => spec_position(*old(self)) is None && *final(self) == *old(self),
            },
    {
        match self {
            Node::Root(x) => x.position.as_mut(),
            Node::BlockQuote(x) => x.position.as_mut(),
            Node::FootnoteDefinition(x) => x.position.as_mut(),
            Node::MdxJsxFlowElement(x) => x.position.as_mut(),
            Node::List(x) => x.position.as_mut(),
            Node::MdxjsEsm(x) => x.position.as_mut(),
            Node::Toml(x) => x.position.as_mut(),
            Node::Yaml(x) => x.position.as_mut(),
            Node::Break(x) => x.position.as_mut(),
            Node::InlineCode(x) => x.position.as_mut(),
            Node::InlineMath(x) => x.position.as_mut(),
            Node::Delete(x) => x.position.as_mut(),
            Node::Emphasis(x) => x.position.as_mut(),
            Node::MdxTextExpression(x) => x.position.as_mut(),
            Node::FootnoteReference(x) => x.position.as_mut(),
            Node::Html(x) => x.position.as_mut(),
            Node::Image(x) => x.position.as_mut(),
            Node::ImageReference(x) => x.position.as_mut(),
            Node::MdxJsxTextElement(x) => x.position.as_mut(),
            Node::Link(x) => x.position.as_mut(),
            Node::LinkReference(x) => x.position.as_mut(),
            Node::Strong(x) => x.position.as_mut(),
            Node::Text(x) => x.position.as_mut(),
            Node::Code(x) => x.position.as_mut(),
            Node::Math(x) => x.position.as_mut(),
            Node::MdxFlowExpression(x) => x.position.as_mut(),
            Node::Heading(x) => x.position.as_mut(),
            Node::Table(x) => x.position.as_mut(),
            Node::ThematicBreak(x) => x.position.as_mut(),
            Node::TableRow(x) => x.position.as_mut(),
            Node::TableCell(x) => x.position.as_mut(),
            Node::ListItem(x) => x.position.as_mut(),
            Node::Definition(x) => x.position.as_mut(),
            Node::Paragraph(x) => x.position.as_mut(),
        }
    }

    /// Replaces the positional info of the node.
    pub fn position_set(&mut self, position: Option<Position>)
        ensures
            *final(self) == with_position(*old(self), position),
    {
        match self {
            Node::Root(x) => x.position = position,
            Node::BlockQuote(x) => x.position = position,
            Node::FootnoteDefinition(x) => x.position = position,
            Node::MdxJsxFlowElement(x) => x.position = position,
            Node::List(x) => x.position = position,
            Node::MdxjsEsm(x) => x.position = position,
            Node::Toml(x) => x.position = position,
            Node::Yaml(x) => x.position = position,
            Node::Break(x) => x.position = position,
            Node::InlineCode(x) => x.position = position,
            Node::InlineMath(x) => x.position = position,
            Node::Delete(x) => x.position = position,
            Node::Emphasis(x) => x.position = position,
            Node::MdxTextExpression(x) => x.position = position,
            Node::FootnoteReference(x) => x.position = position,
            Node::Html(x) => x.position = position,
            Node::Image(x) => x.position = position,
            Node::ImageReference(x) => x.position = position,
            Node::MdxJsxTextElement(x) => x.position = position,
            Node::Link(x) => x.position = position,
            Node::LinkReference(x) => x.position = position,
            Node::Strong(x) => x.position = position,
            Node::Text(x) => x.position = position,
            Node::Code(x) => x.position = position,
            Node::Math(x) => x.position = position,
            Node::MdxFlowExpression(x) => x.position = position,
            Node::Heading(x) => x.position = position,
            Node::Table(x) => x.position = position,
            Node::ThematicBreak(x) => x.position = position,
            Node::TableRow(x) => x.position = position,
            Node::TableCell(x) => x.position = position,
            Node::ListItem(x) => x.position = position,
            Node::Definition(x) => x.position = position,
            Node::Paragraph(x) => x.position = position,
        }
    }
}

/// MDX: attribute content.
#[derive(Debug, Eq)]
pub enum AttributeContent {
    /// JSX expression.
    ///
    /// ```markdown
    /// > | <a {...b} />
    ///        ^^^^^^
    /// ```
    Expression(String, Vec<Stop>),
    /// JSX property.
    ///
    /// ```markdown
    /// > | <a b />
    ///        ^
    /// ```
    Property(MdxJsxAttribute),
}

/// MDX: attribute value.
#[derive(Debug, Eq)]
pub enum AttributeValue {
    /// Expression value.
    ///
    /// ```markdown
    /// > | <a b={c} />
    ///          ^^^
    /// ```
    Expression(String, Vec<Stop>),
    /// Static value.
    ///
    /// ```markdown
    /// > | <a b="c" />
    ///          ^^^
    /// ```
    Literal(String),
}

/// Document.
///
/// ```markdown
/// > | a
///     ^
/// ```
#[derive(Debug, Eq, PartialEq)]
pub struct Root {
    // Parent.
    /// Content model.
    pub children: Vec<Node>,
    /// Positional info.
    pub position: Option<Position>,
}

/// Paragraph.
///
/// ```markdown
/// > | a
///     ^
/// ```
#[derive(Debug, Eq, PartialEq)]
pub struct Paragraph {
    // Parent.
    /// Content model.
    pub children: Vec<Node>,
    /// Positional info.
    pub position: Option<Position>,
}

/// Heading.
///
/// ```markdown
/// > | # a
///     ^^^
/// ```
#[derive(Debug, Eq, PartialEq)]
pub struct Heading {
    // Parent.
    /// Content model.
    pub children: Vec<Node>,
    /// Positional info.
    pub position: Option<Position>,
    // Extra.
    /// Rank (between `1` and `6`, both including).
    pub depth: u8,
}

/// Thematic break.
///
/// ```markdown
/// > | ***
///     ^^^
/// ```
#[derive(Debug, Eq, PartialEq)]
pub struct ThematicBreak {
    // Void.
    /// Positional info.
    pub position: Option<Position>,
}

/// Block quote.
///
/// ```markdown
/// > | > a
///     ^^^
/// ```
#[derive(Debug, Eq, PartialEq)]
pub struct BlockQuote {
    // Parent.
    /// Content model.
    pub children: Vec<Node>,
    /// Positional info.
    pub position: Option<Position>,
}

/// List.
///
/// ```markdown
/// > | * a
///     ^^^
/// ```
#[derive(Debug, Eq, PartialEq)]
pub struct List {
    // Parent.
    /// Content model.
    pub children: Vec<Node>,
    /// Positional info.
    pub position: Option<Position>,
    // Extra.
    /// Ordered (`true`) or unordered (`false`).
    pub ordered: bool,
    /// Starting number of the list.
    /// `None` when unordered.
    pub start: Option<u8>,
    /// One or more of its children are separated with a blank line from its
    /// siblings (when `true`), or not (when `false`).
    pub spread: bool,
}

/// List item.
///
/// ```markdown
/// > | * a
///     ^^^
/// ```
#[derive(Debug, Eq, PartialEq)]
pub struct ListItem {
    // Parent.
    /// Content model.
    pub children: Vec<Node>,
    /// Positional info.
    pub position: Option<Position>,
    // Extra.
    /// The item contains two or more children separated by a blank line
    /// (when `true`), or not (when `false`).
    pub spread: bool,
    /// GFM: whether the item is done (when `true`), not done (when `false`),
    /// or indeterminate or not applicable (`None`).
    pub checked: Option<bool>,
}

/// Html (flow or phrasing).
///
/// ```markdown
/// > | <a>
///     ^^^
/// ```
#[derive(Debug, Eq, PartialEq)]
pub struct Html {
    // Text.
    /// Content model.
    pub value: String,
    /// Positional info.
    pub position: Option<Position>,
}

/// Code (flow).
///
/// ```markdown
/// > | ~~~
///     ^^^
/// > | a
///     ^
/// > | ~~~
///     ^^^
/// ```
#[derive(Debug, Eq, PartialEq)]
pub struct Code {
    // Text.
    /// Content model.
    pub value: String,
    /// Positional info.
    pub position: Option<Position>,
    // Extra.
    /// The language of computer code being marked up.
    pub lang: Option<String>,
    /// Custom info relating to the node.
    pub meta: Option<String>,
}

/// Math (flow).
///
/// ```markdown
/// > | $$
///     ^^
/// > | a
///     ^
/// > | $$
///     ^^
/// ```
#[derive(Debug, Eq, PartialEq)]
pub struct Math {
    // Text.
    /// Content model.
    pub value: String,
    /// Positional info.
    pub position: Option<Position>,
    // Extra.
    /// Custom info relating to the node.
    pub meta: Option<String>,
}

/// Definition.
///
/// ```markdown
/// > | [a]: b
///     ^^^^^^
/// ```
#[derive(Debug, Eq, PartialEq)]
pub struct Definition {
    // Void.
    /// Positional info.
    pub position: Option<Position>,
    // Resource.
    /// URL to the referenced resource.
    pub url: String,
    /// Advisory info for the resource, such as something that would be
    /// appropriate for a tooltip.
    pub title: Option<String>,
    // Association.
    /// Value that can match another node.
    /// `identifier` is a source value: character escapes and character references
    /// are *not* parsed.
    /// Its value must be normalized.
    pub identifier: String,
    /// `label` is a string value: it works just like `title` on a link or a
    /// `lang` on code: character escapes and character references are parsed.
    ///
    /// To normalize a value, collapse markdown whitespace (`[\t\n\r ]+`) to a
    /// space, trim the optional initial and/or final space, and perform
    /// case-folding.
    pub label: Option<String>,
}

/// Text.
///
/// ```markdown
/// > | a
///     ^
/// ```
#[derive(Debug, Eq, PartialEq)]
pub struct Text {
    // Text.
    /// Content model.
    pub value: String,
    /// Positional info.
    pub position: Option<Position>,
}

/// Emphasis.
///
/// ```markdown
/// > | *a*
///     ^^^
/// ```
#[derive(Debug, Eq, PartialEq)]
pub struct Emphasis {
    // Parent.
    /// Content model.
    pub children: Vec<Node>,
    /// Positional info.
    pub position: Option<Position>,
}

/// Strong.
///
/// ```markdown
/// > | **a**
///     ^^^^^
/// ```
#[derive(Debug, Eq, PartialEq)]
pub struct Strong {
    // Parent.
    /// Content model.
    pub children: Vec<Node>,
    /// Positional info.
    pub position: Option<Position>,
}

/// Code (phrasing).
///
/// ```markdown
/// > | `a`
///     ^^^
/// ```
#[derive(Debug, Eq, PartialEq)]
pub struct InlineCode {
    // Text.
    /// Content model.
    pub value: String,
    /// Positional info.
    pub position: Option<Position>,
}

/// Math (phrasing).
///
/// ```markdown
/// > | $a$
///     ^^^
/// ```
#[derive(Debug, Eq, PartialEq)]
pub struct InlineMath {
    // Text.
    /// Content model.
    pub value: String,
    /// Positional info.
    pub position: Option<Position>,
}

/// Break.
///
/// ```markdown
/// > | a\
///      ^
///   | b
/// ```
#[derive(Debug, Eq, PartialEq)]
pub struct Break {
    // Void.
    /// Positional info.
    pub position: Option<Position>,
}

/// Link.
///
/// ```markdown
/// > | [a](b)
///     ^^^^^^
/// ```
#[derive(Debug, Eq, PartialEq)]
pub struct Link {
    // Parent.
    /// Content model.
    pub children: Vec<Node>,
    /// Positional info.
    pub position: Option<Position>,
    // Resource.
    /// URL to the referenced resource.
    pub url: String,
    /// Advisory info for the resource, such as something that would be
    /// appropriate for a tooltip.
    pub title: Option<String>,
}

/// Image.
///
/// ```markdown
/// > | ![a](b)
///     ^^^^^^^
/// ```
#[derive(Debug, Eq, PartialEq)]
pub struct Image {
    // Void.
    /// Positional info.
    pub position: Option<Position>,
    // Alternative.
    /// Equivalent content for environments that cannot represent the node as
    /// intended.
    pub alt: String,
    // Resource.
    /// URL to the referenced resource.
    pub url: String,
    /// Advisory info for the resource, such as something that would be
    /// appropriate for a tooltip.
    pub title: Option<String>,
}

/// Link reference.
///
/// ```markdown
/// > | [a]
///     ^^^
/// ```
#[derive(Debug, Eq, PartialEq)]
pub struct LinkReference {
    // Parent.
    /// Content model.
    pub children: Vec<Node>,
    /// Positional info.
    pub position: Option<Position>,
    // Reference.
    /// Explicitness of a reference.
    pub reference_kind: ReferenceKind,
    // Association.
    /// Value that can match another node.
    /// `identifier` is a source value: character escapes and character references
    /// are *not* parsed.
    /// Its value must be normalized.
    pub identifier: String,
    /// `label` is a string value: it works just like `title` on a link or a
    /// `lang` on code: character escapes and character references are parsed.
    ///
    /// To normalize a value, collapse markdown whitespace (`[\t\n\r ]+`) to a
    /// space, trim the optional initial and/or final space, and perform
    /// case-folding.
    pub label: Option<String>,
}

/// Image reference.
///
/// ```markdown
/// > | ![a]
///     ^^^^
/// ```
#[derive(Debug, Eq, PartialEq)]
pub struct ImageReference {
    // Void.
    /// Positional info.
    pub position: Option<Position>,
    // Alternative.
    /// Equivalent content for environments that cannot represent the node as
    /// intended.
    pub alt: String,
    // Reference.
    /// Explicitness of a reference.
    pub reference_kind: ReferenceKind,
    // Association.
    /// Value that can match another node.
    /// `identifier` is a source value: character escapes and character references
    /// are *not* parsed.
    /// Its value must be normalized.
    pub identifier: String,
    /// `label` is a string value: it works just like `title` on a link or a
    /// `lang` on code: character escapes and character references are parsed.
    ///
    /// To normalize a value, collapse markdown whitespace (`[\t\n\r ]+`) to a
    /// space, trim the optional initial and/or final space, and perform
    /// case-folding.
    pub label: Option<String>,
}

/// Footnote definition (GFM).
///
/// ```markdown
/// > | [^a]: b
///     ^^^^^^^
/// ```
#[derive(Debug, Eq, PartialEq)]
pub struct FootnoteDefinition {
    // Parent.
    /// Content model.
    pub children: Vec<Node>,
    /// Positional info.
    pub position: Option<Position>,
    // Association.
    /// Value that can match another node.
    /// `identifier` is a source value: character escapes and character references
    /// are *not* parsed.
    /// Its value must be normalized.
    pub identifier: String,
    /// `label` is a string value: it works just like `title` on a link or a
    /// `lang` on code: character escapes and character references are parsed.
    ///
    /// To normalize a value, collapse markdown whitespace (`[\t\n\r ]+`) to a
    /// space, trim the optional initial and/or final space, and perform
    /// case-folding.
    pub label: Option<String>,
}

/// Footnote reference (GFM).
///
/// ```markdown
/// > | [^a]
///     ^^^^
/// ```
#[derive(Debug, Eq, PartialEq)]
pub struct FootnoteReference {
    // Void.
    /// Positional info.
    pub position: Option<Position>,
    // Association.
    /// Value that can match another node.
    /// `identifier` is a source value: character escapes and character references
    /// are *not* parsed.
    /// Its value must be normalized.
    pub identifier: String,
    /// `label` is a string value: it works just like `title` on a link or a
    /// `lang` on code: character escapes and character references are parsed.
    ///
    /// To normalize a value, collapse markdown whitespace (`[\t\n\r ]+`) to a
    /// space, trim the optional initial and/or final space, and perform
    /// case-folding.
    pub label: Option<String>,
}

/// Table (GFM).
///
/// ```markdown
/// > | | a |
///     ^^^^^
/// > | | - |
///     ^^^^^
/// ```
#[derive(Debug, Eq, PartialEq)]
pub struct Table {
    // Parent.
    /// Content model.
    pub children: Vec<Node>,
    /// Positional info.
    pub position: Option<Position>,
    // Extra.
    /// Represents how cells in columns are aligned.
    pub align: Vec<AlignKind>,
}

/// Table row (GFM).
///
/// ```markdown
/// > | | a |
///     ^^^^^
/// ```
#[derive(Debug, Eq, PartialEq)]
pub struct TableRow {
    // Parent.
    /// Content model.
    pub children: Vec<Node>,
    /// Positional info.
    pub position: Option<Position>,
}

/// Table cell (GFM).
///
/// ```markdown
/// > | | a |
///     ^^^^^
/// ```
#[derive(Debug, Eq, PartialEq)]
pub struct TableCell {
    // Parent.
    /// Content model.
    pub children: Vec<Node>,
    /// Positional info.
    pub position: Option<Position>,
}

/// Delete (GFM).
///
/// ```markdown
/// > | ~~a~~
///     ^^^^^
/// ```
#[derive(Debug, Eq, PartialEq)]
pub struct Delete {
    // Parent.
    /// Content model.
    pub children: Vec<Node>,
    /// Positional info.
    pub position: Option<Position>,
}

/// Yaml (frontmatter).
///
/// ```markdown
/// > | ---
///     ^^^
/// > | a: b
///     ^^^^
/// > | ---
///     ^^^
/// ```
#[derive(Debug, Eq, PartialEq)]
pub struct Yaml {
    // Void.
    /// Content model.
    pub value: String,
    /// Positional info.
    pub position: Option<Position>,
}

/// Toml (frontmatter).
///
/// ```markdown
/// > | +++
///     ^^^
/// > | a: b
///     ^^^^
/// > | +++
///     ^^^
/// ```
#[derive(Debug, Eq, PartialEq)]
pub struct Toml {
    // Void.
    /// Content model.
    pub value: String,
    /// Positional info.
    pub position: Option<Position>,
}

/// MDX: ESM.
///
/// ```markdown
/// > | import a from 'b'
///     ^^^^^^^^^^^^^^^^^
/// ```
#[derive(Debug, Eq, PartialEq)]
pub struct MdxjsEsm {
    // Literal.
    /// Content model.
    pub value: String,
    /// Positional info.
    pub position: Option<Position>,
    /// Custom data on where each slice of `value` came from.
    pub stops: Vec<Stop>,
}

/// MDX: expression (flow).
///
/// ```markdown
/// > | {a}
///     ^^^
/// ```
#[derive(Debug, Eq, PartialEq)]
pub struct MdxFlowExpression {
    // Literal.
    /// Content model.
    pub value: String,
    /// Positional info.
    pub position: Option<Position>,
    /// Custom data on where each slice of `value` came from.
    pub stops: Vec<Stop>,
}

/// MDX: expression (text).
///
/// ```markdown
/// > | a {b}
///       ^^^
/// ```
#[derive(Debug, Eq, PartialEq)]
pub struct MdxTextExpression {
    // Literal.
    /// Content model.
    pub value: String,
    /// Positional info.
    pub position: Option<Position>,
    /// Custom data on where each slice of `value` came from.
    pub stops: Vec<Stop>,
}

/// MDX: JSX element (container).
///
/// ```markdown
/// > | <a />
///     ^^^^^
/// ```
#[derive(Debug, Eq, PartialEq)]
pub struct MdxJsxFlowElement {
    // Parent.
    /// Content model.
    pub children: Vec<Node>,
    /// Positional info.
    pub position: Option<Position>,
    // JSX element.
    /// Name.
    ///
    /// Fragments have no name.
    pub name: Option<String>,
    /// Attributes.
    pub attributes: Vec<AttributeContent>,
}

/// MDX: JSX element (text).
///
/// ```markdown
/// > | <a />.
///     ^^^^^
/// ```
#[derive(Debug, Eq, PartialEq)]
pub struct MdxJsxTextElement {
    // Parent.
    /// Content model.
    pub children: Vec<Node>,
    /// Positional info.
    pub position: Option<Position>,
    // JSX element.
    /// Name.
    ///
    /// Fragments have no name.
    pub name: Option<String>,
    /// Attributes.
    pub attributes: Vec<AttributeContent>,
}

/// MDX: JSX attribute.
///
/// ```markdown
/// > | <a b />
///        ^
/// ```
#[derive(Debug, Eq)]
pub struct MdxJsxAttribute {
    /// Key.
    pub name: String,
    /// Value.
    pub value: Option<AttributeValue>,
}

/// Clones every node of a vector, preserving structure and order.
fn clone_nodes(v: &Vec<Node>) -> (r: Vec<Node>)
    ensures
        deep_eq_seq(v@, r@),
    decreases v@,
{
    let mut r: Vec<Node> = Vec::new();
    let mut i: usize = 0;
    while i < v.len()
        invariant
            i <= v@.len(),
            r@.len() == i,
            forall|j: int| 0 <= j < i ==> deep_eq(#[trigger] v@[j], r@[j]),
        decreases v@.len() - i,
    {
        proof {
            assert(decreases_to!(v@ => v@[i as int]));
        }
        r.push(v[i].clone());
        i += 1;
    }
    r
}

/// Clones every attribute of a vector, preserving structure and order.
fn clone_attributes(v: &Vec<AttributeContent>) -> (r: Vec<AttributeContent>)
    ensures
        attr_seq_eq(v@, r@),
{
    let mut r: Vec<AttributeContent> = Vec::new();
    let mut i: usize = 0;
    while i < v.len()
        invariant
            i <= v@.len(),
            r@.len() == i,
            forall|j: int| 0 <= j < i ==> attr_eq(#[trigger] v@[j], r@[j]),
        decreases v@.len() - i,
    {
        r.push(v[i].clone());
        i += 1;
    }
    r
}

/// Compares two optional positions.
fn opt_pos_eq(a: &Option<Position>, b: &Option<Position>) -> (r: bool)
    ensures
        r == (*a == *b),
{
    match (a, b) {
        (Option::Some(x), Option::Some(y)) => *x == *y,
        (Option::None, Option::None) => true,
        _ => false,
    }
}

/// Compares two optional strings by their text.
fn opt_str_eq(a: &Option<String>, b: &Option<String>) -> (r: bool)
    ensures
        r == str_opt_eq(*a, *b),
{
    match (a, b) {
        (Option::Some(x), Option::Some(y)) => x.eq(y),
        (Option::None, Option::None) => true,
        _ => false,
    }
}

/// Compares two optional bytes.
fn opt_u8_eq(a: &Option<u8>, b: &Option<u8>) -> (r: bool)
    ensures
        r == (*a == *b),
{
    match (a, b) {
        (Option::Some(x), Option::Some(y)) => *x == *y,
        (Option::None, Option::None) => true,
        _ => false,
    }
}

/// Compares two optional flags.
fn opt_bool_eq(a: &Option<bool>, b: &Option<bool>) -> (r: bool)
    ensures
        r == (*a == *b),
{
    match (a, b) {
        (Option::Some(x), Option::Some(y)) => *x == *y,
        (Option::None, Option::None) => true,
        _ => false,
    }
}

/// Compares two stop tables element by element.
fn stops_eq(a: &Vec<Stop>, b: &Vec<Stop>) -> (r: bool)
    ensures
        r == (a@ == b@),
{
    if a.len() != b.len() {
        return false;
    }
    let mut i: usize = 0;
    while i < a.len()
        invariant
            a@.len() == b@.len(),
            i <= a@.len(),
            forall|j: int| 0 <= j < i ==> a@[j] == b@[j],
        decreases a@.len() - i,
    {
        let x = a[i];
        let y = b[i];
        if x.0 != y.0 || x.1 != y.1 {
            return false;
        }
        i += 1;
    }
    proof {
        assert(a@ =~= b@);
    }
    true
}

/// Compares two alignment tables element by element.
fn aligns_eq(a: &Vec<AlignKind>, b: &Vec<AlignKind>) -> (r: bool)
    ensures
        r == (a@ == b@),
{
    if a.len() != b.len() {
        return false;
    }
    let mut i: usize = 0;
    while i < a.len()
        invariant
            a@.len() == b@.len(),
            i <= a@.len(),
            forall|j: int| 0 <= j < i ==> a@[j] == b@[j],
        decreases a@.len() - i,
    {
        let x = a[i];
        let y = b[i];
        if !(x == y) {
            return false;
        }
        i += 1;
    }
    proof {
        assert(a@ =~= b@);
    }
    true
}

/// Compares two optional attribute values.
fn opt_value_eq(a: &Option<AttributeValue>, b: &Option<AttributeValue>) -> (r: bool)
    ensures
        r == value_opt_eq(*a, *b),
{
    match (a, b) {
        (Option::Some(x), Option::Some(y)) => x.eq(y),
        (Option::None, Option::None) => true,
        _ => false,
    }
}

/// Compares two attribute vectors element by element.
fn attrs_eq(a: &Vec<AttributeContent>, b: &Vec<AttributeContent>) -> (r: bool)
    ensures
        r == attr_seq_eq(a@, b@),
{
    if a.len() != b.len() {
        return false;
    }
    let mut i: usize = 0;
    while i < a.len()
        invariant
            a@.len() == b@.len(),
            i <= a@.len(),
            forall|j: int| 0 <= j < i ==> attr_eq(#[trigger] a@[j], b@[j]),
        decreases a@.len() - i,
    {
        let ea = &a[i];
        let eb = &b[i];
        if !(ea.eq(eb)) {
            return false;
        }
        i += 1;
    }
    true
}

/// Compares two node vectors element by element.
fn nodes_eq(a: &Vec<Node>, b: &Vec<Node>) -> (r: bool)
    ensures
        r == deep_eq_seq(a@, b@),
    decreases a@,
{
    if a.len() != b.len() {
        return false;
    }
    let mut i: usize = 0;
    while i < a.len()
        invariant
            a@.len() == b@.len(),
            i <= a@.len(),
            forall|j: int| 0 <= j < i ==> deep_eq(#[trigger] a@[j], b@[j]),
        decreases a@.len() - i,
    {
        proof {
            assert(decreases_to!(a@ => a@[i as int]));
        }
        let ea = &a[i];
        let eb = &b[i];
        if !(ea.eq(eb)) {
            return false;
        }
        i += 1;
    }
    true
}

impl PartialEq for MdxJsxAttribute {
    /// Structural equality: equal key and structurally equal value.
    fn eq(&self, other: &Self) -> (r: bool) {
        self.name == other.name && opt_value_eq(&self.value, &other.value)
    }
}

impl vstd::std_specs::cmp::PartialEqSpecImpl for MdxJsxAttribute {
    open spec fn obeys_eq_spec() -> bool {
        true
    }

    open spec fn eq_spec(&self, other: &Self) -> bool {
        self.name@ == other.name@ && value_opt_eq(self.value, other.value)
    }
}

impl PartialEq for AttributeValue {
    /// Structural equality: same shape and equal contents.
    fn eq(&self, other: &Self) -> (r: bool) {
        match (self, other) {
            (AttributeValue::Expression(s, v), AttributeValue::Expression(t, w)) => s.eq(t)
                && stops_eq(v, w),
            (AttributeValue::Literal(s), AttributeValue::Literal(t)) => s.eq(t),
            _ => false,
        }
    }
}

impl vstd::std_specs::cmp::PartialEqSpecImpl for AttributeValue {
    open spec fn obeys_eq_spec() -> bool {
        true
    }

    open spec fn eq_spec(&self, other: &Self) -> bool {
        value_eq(*self, *other)
    }
}

impl PartialEq for AttributeContent {
    /// Structural equality: same shape and equal contents.
    fn eq(&self, other: &Self) -> (r: bool) {
        match (self, other) {
            (AttributeContent::Expression(s, v), AttributeContent::Expression(t, w)) => s.eq(t)
                && stops_eq(v, w),
            (AttributeContent::Property(p), AttributeContent::Property(q)) => p.eq(q),
            _ => false,
        }
    }
}

impl vstd::std_specs::cmp::PartialEqSpecImpl for AttributeContent {
    open spec fn obeys_eq_spec() -> bool {
        true
    }

    open spec fn eq_spec(&self, other: &Self) -> bool {
        attr_eq(*self, *other)
    }
}

impl PartialEq for Node {
    /// Structural equality of whole trees.
    fn eq(&self, other: &Self) -> (r: bool)
        decreases *self,
    {
        match (self, other) {
            (Node::Root(x), Node::Root(y)) => nodes_eq(&x.children, &y.children) && opt_pos_eq(
                &x.position,
                &y.position,
            ),
            (Node::BlockQuote(x), Node::BlockQuote(y)) => nodes_eq(&x.children, &y.children)
                && opt_pos_eq(&x.position, &y.position),
            (Node::FootnoteDefinition(x), Node::FootnoteDefinition(y)) => nodes_eq(
                &x.children,
                &y.children,
            ) && opt_pos_eq(&x.position, &y.position) && x.identifier == y.identifier
                && opt_str_eq(&x.label, &y.label),
            (Node::MdxJsxFlowElement(x), Node::MdxJsxFlowElement(y)) => nodes_eq(
                &x.children,
                &y.children,
            ) && opt_pos_eq(&x.position, &y.position) && opt_str_eq(&x.name, &y.name) && attrs_eq(
                &x.attributes,
                &y.attributes,
            ),
            (Node::List(x), Node::List(y)) => nodes_eq(&x.children, &y.children) && opt_pos_eq(
                &x.position,
                &y.position,
            ) && x.ordered == y.ordered && opt_u8_eq(&x.start, &y.start) && x.spread == y.spread,
            (Node::Delete(x), Node::Delete(y)) => nodes_eq(&x.children, &y.children) && opt_pos_eq(
                &x.position,
                &y.position,
            ),
            (Node::Emphasis(x), Node::Emphasis(y)) => nodes_eq(&x.children, &y.children)
                && opt_pos_eq(&x.position, &y.position),
            (Node::MdxJsxTextElement(x), Node::MdxJsxTextElement(y)) => nodes_eq(
                &x.children,
                &y.children,
            ) && opt_pos_eq(&x.position, &y.position) && opt_str_eq(&x.name, &y.name) && attrs_eq(
                &x.attributes,
                &y.attributes,
            ),
            (Node::Link(x), Node::Link(y)) => nodes_eq(&x.children, &y.children) && opt_pos_eq(
                &x.position,
                &y.position,
            ) && x.url == y.url && opt_str_eq(&x.title, &y.title),
            (Node::LinkReference(x), Node::LinkReference(y)) => nodes_eq(&x.children, &y.children)
                && opt_pos_eq(&x.position, &y.position) && x.reference_kind == y.reference_kind
                && x.identifier == y.identifier && opt_str_eq(&x.label, &y.label),
            (Node::Strong(x), Node::Strong(y)) => nodes_eq(&x.children, &y.children) && opt_pos_eq(
                &x.position,
                &y.position,
            ),
            (Node::Heading(x), Node::Heading(y)) => nodes_eq(&x.children, &y.children)
                && opt_pos_eq(&x.position, &y.position) && x.depth == y.depth,
            (Node::Table(x), Node::Table(y)) => nodes_eq(&x.children, &y.children) && opt_pos_eq(
                &x.position,
                &y.position,
            ) && aligns_eq(&x.align, &y.align),
            (Node::TableRow(x), Node::TableRow(y)) => nodes_eq(&x.children, &y.children)
                && opt_pos_eq(&x.position, &y.position),
            (Node::TableCell(x), Node::TableCell(y)) => nodes_eq(&x.children, &y.children)
                && opt_pos_eq(&x.position, &y.position),
            (Node::ListItem(x), Node::ListItem(y)) => nodes_eq(&x.children, &y.children)
                && opt_pos_eq(&x.position, &y.position) && x.spread == y.spread && opt_bool_eq(
                &x.checked,
                &y.checked,
            ),
            (Node::Paragraph(x), Node::Paragraph(y)) => nodes_eq(&x.children, &y.children)
                && opt_pos_eq(&x.position, &y.position),
            (Node::MdxjsEsm(x), Node::MdxjsEsm(y)) => x.value == y.value && opt_pos_eq(
                &x.position,
                &y.position,
            ) && stops_eq(&x.stops, &y.stops),
            (Node::MdxFlowExpression(x), Node::MdxFlowExpression(y)) => x.value == y.value
                && opt_pos_eq(&x.position, &y.position) && stops_eq(&x.stops, &y.stops),
            (Node::MdxTextExpression(x), Node::MdxTextExpression(y)) => x.value == y.value
                && opt_pos_eq(&x.position, &y.position) && stops_eq(&x.stops, &y.stops),
            (Node::Toml(x), Node::Toml(y)) => x.value == y.value && opt_pos_eq(
                &x.position,
                &y.position,
            ),
            (Node::Yaml(x), Node::Yaml(y)) => x.value == y.value && opt_pos_eq(
                &x.position,
                &y.position,
            ),
            (Node::InlineCode(x), Node::InlineCode(y)) => x.value == y.value && opt_pos_eq(
                &x.position,
                &y.position,
            ),
            (Node::InlineMath(x), Node::InlineMath(y)) => x.value == y.value && opt_pos_eq(
                &x.position,
                &y.position,
            ),
            (Node::Html(x), Node::Html(y)) => x.value == y.value && opt_pos_eq(
                &x.position,
                &y.position,
            ),
            (Node::Text(x), Node::Text(y)) => x.value == y.value && opt_pos_eq(
                &x.position,
                &y.position,
            ),
            (Node::Code(x), Node::Code(y)) => x.value == y.value && opt_pos_eq(
                &x.position,
                &y.position,
            ) && opt_str_eq(&x.lang, &y.lang) && opt_str_eq(&x.meta, &y.meta),
            (Node::Math(x), Node::Math(y)) => x.value == y.value && opt_pos_eq(
                &x.position,
                &y.position,
            ) && opt_str_eq(&x.meta, &y.meta),
            (Node::Break(x), Node::Break(y)) => opt_pos_eq(&x.position, &y.position),
            (Node::ThematicBreak(x), Node::ThematicBreak(y)) => opt_pos_eq(
                &x.position,
                &y.position,
            ),
            (Node::FootnoteReference(x), Node::FootnoteReference(y)) => opt_pos_eq(
                &x.position,
                &y.position,
            ) && x.identifier == y.identifier && opt_str_eq(&x.label, &y.label),
            (Node::Image(x), Node::Image(y)) => opt_pos_eq(&x.position, &y.position) && x.alt
                == y.alt && x.url == y.url && opt_str_eq(&x.title, &y.title),
            (Node::ImageReference(x), Node::ImageReference(y)) => opt_pos_eq(
                &x.position,
                &y.position,
            ) && x.alt == y.alt && x.reference_kind == y.reference_kind && x.identifier
                == y.identifier && opt_str_eq(&x.label, &y.label),
            (Node::Definition(x), Node::Definition(y)) => opt_pos_eq(&x.position, &y.position)
                && x.url == y.url && opt_str_eq(&x.title, &y.title) && x.identifier == y.identifier
                && opt_str_eq(&x.label, &y.label),
            _ => false,
        }
    }
}

impl vstd::std_specs::cmp::PartialEqSpecImpl for Node {
    open spec fn obeys_eq_spec() -> bool {
        true
    }

    open spec fn eq_spec(&self, other: &Self) -> bool {
        deep_eq(*self, *other)
    }
}

impl Clone for Node {
    /// A structurally equal copy of the whole tree.
    fn clone(&self) -> (res: Self)
        ensures
            deep_eq(*self, res),
        decreases *self,
    {
        match self {
            Node::Root(x) => Node::Root(x.clone()),
            Node::BlockQuote(x) => Node::BlockQuote(x.clone()),
            Node::FootnoteDefinition(x) => Node::FootnoteDefinition(x.clone()),
            Node::MdxJsxFlowElement(x) => Node::MdxJsxFlowElement(x.clone()),
            Node::List(x) => Node::List(x.clone()),
            Node::MdxjsEsm(x) => Node::MdxjsEsm(x.clone()),
            Node::Toml(x) => Node::Toml(x.clone()),
            Node::Yaml(x) => Node::Yaml(x.clone()),
            Node::Break(x) => Node::Break(x.clone()),
            Node::InlineCode(x) => Node::InlineCode(x.clone()),
            Node::InlineMath(x) => Node::InlineMath(x.clone()),
            Node::Delete(x) => Node::Delete(x.clone()),
            Node::Emphasis(x) => Node::Emphasis(x.clone()),
            Node::MdxTextExpression(x) => Node::MdxTextExpression(x.clone()),
            Node::FootnoteReference(x) => Node::FootnoteReference(x.clone()),
            Node::Html(x) => Node::Html(x.clone()),
            Node::Image(x) => Node::Image(x.clone()),
            Node::ImageReference(x) => Node::ImageReference(x.clone()),
            Node::MdxJsxTextElement(x) => Node::MdxJsxTextElement(x.clone()),
            Node::Link(x) => Node::Link(x.clone()),
            Node::LinkReference(x) => Node::LinkReference(x.clone()),
            Node::Strong(x) => Node::Strong(x.clone()),
            Node::Text(x) => Node::Text(x.clone()),
            Node::Code(x) => Node::Code(x.clone()),
            Node::Math(x) => Node::Math(x.clone()),
            Node::MdxFlowExpression(x) => Node::MdxFlowExpression(x.clone()),
            Node::Heading(x) => Node::Heading(x.clone()),
            Node::Table(x) => Node::Table(x.clone()),
            Node::ThematicBreak(x) => Node::ThematicBreak(x.clone()),
            Node::TableRow(x) => Node::TableRow(x.clone()),
            Node::TableCell(x) => Node::TableCell(x.clone()),
            Node::ListItem(x) => Node::ListItem(x.clone()),
            Node::Definition(x) => Node::Definition(x.clone()),
            Node::Paragraph(x) => Node::Paragraph(x.clone()),
        }
    }
}

impl Clone for Root {
    fn clone(&self) -> (res: Self)
        ensures
            deep_eq(Node::Root(*self), Node::Root(res)),
        decreases *self,
    {
        Root { children: clone_nodes(&self.children), position: self.position }
    }
}

impl Clone for BlockQuote {
    fn clone(&self) -> (res: Self)
        ensures
            deep_eq(Node::BlockQuote(*self), Node::BlockQuote(res)),
        decreases *self,
    {
        BlockQuote { children: clone_nodes(&self.children), position: self.position }
    }
}

impl Clone for FootnoteDefinition {
    fn clone(&self) -> (res: Self)
        ensures
            deep_eq(Node::FootnoteDefinition(*self), Node::FootnoteDefinition(res)),
        decreases *self,
    {
        FootnoteDefinition {
            children: clone_nodes(&self.children),
            position: self.position,
            identifier: self.identifier.clone(),
            label: self.label.clone(),
        }
    }
}

impl Clone for MdxJsxFlowElement {
    fn clone(&self) -> (res: Self)
        ensures
            deep_eq(Node::MdxJsxFlowElement(*self), Node::MdxJsxFlowElement(res)),
        decreases *self,
    {
        MdxJsxFlowElement {
            children: clone_nodes(&self.children),
            position: self.position,
            name: self.name.clone(),
            attributes: clone_attributes(&self.attributes),
        }
    }
}

impl Clone for List {
    fn clone(&self) -> (res: Self)
        ensures
            deep_eq(Node::List(*self), Node::List(res)),
        decreases *self,
    {
        List {
            children: clone_nodes(&self.children),
            position: self.position,
            ordered: self.ordered,
            start: self.start,
            spread: self.spread,
        }
    }
}

impl Clone for Delete {
    fn clone(&self) -> (res: Self)
        ensures
            deep_eq(Node::Delete(*self), Node::Delete(res)),
        decreases *self,
    {
        Delete { children: clone_nodes(&self.children), position: self.position }
    }
}

impl Clone for Emphasis {
    fn clone(&self) -> (res: Self)
        ensures
            deep_eq(Node::Emphasis(*self), Node::Emphasis(res)),
        decreases *self,
    {
        Emphasis { children: clone_nodes(&self.children), position: self.position }
    }
}

impl Clone for MdxJsxTextElement {
    fn clone(&self) -> (res: Self)
        ensures
            deep_eq(Node::MdxJsxTextElement(*self), Node::MdxJsxTextElement(res)),
        decreases *self,
    {
        MdxJsxTextElement {
            children: clone_nodes(&self.children),
            position: self.position,
            name: self.name.clone(),
            attributes: clone_attributes(&self.attributes),
        }
    }
}

impl Clone for Link {
    fn clone(&self) -> (res: Self)
        ensures
            deep_eq(Node::Link(*self), Node::Link(res)),
        decreases *self,
    {
        Link {
            children: clone_nodes(&self.children),
            position: self.position,
            url: self.url.clone(),
            title: self.title.clone(),
        }
    }
}

impl Clone for LinkReference {
    fn clone(&self) -> (res: Self)
        ensures
            deep_eq(Node::LinkReference(*self), Node::LinkReference(res)),
        decreases *self,
    {
        LinkReference {
            children: clone_nodes(&self.children),
            position: self.position,
            reference_kind: self.reference_kind,
            identifier: self.identifier.clone(),
            label: self.label.clone(),
        }
    }
}

impl Clone for Strong {
    fn clone(&self) -> (res: Self)
        ensures
            deep_eq(Node::Strong(*self), Node::Strong(res)),
        decreases *self,
    {
        Strong { children: clone_nodes(&self.children), position: self.position }
    }
}

impl Clone for Heading {
    fn clone(&self) -> (res: Self)
        ensures
            deep_eq(Node::Heading(*self), Node::Heading(res)),
        decreases *self,
    {
        Heading {
            children: clone_nodes(&self.children),
            position: self.position,
            depth: self.depth,
        }
    }
}

impl Clone for Table {
    fn clone(&self) -> (res: Self)
        ensures
            deep_eq(Node::Table(*self), Node::Table(res)),
        decreases *self,
    {
        Table {
            children: clone_nodes(&self.children),
            position: self.position,
            align: vstd::slice::slice_to_vec(self.align.as_slice()),
        }
    }
}

impl Clone for TableRow {
    fn clone(&self) -> (res: Self)
        ensures
            deep_eq(Node::TableRow(*self), Node::TableRow(res)),
        decreases *self,
    {
        TableRow { children: clone_nodes(&self.children), position: self.position }
    }
}

impl Clone for TableCell {
    fn clone(&self) -> (res: Self)
        ensures
            deep_eq(Node::TableCell(*self), Node::TableCell(res)),
        decreases *self,
    {
        TableCell { children: clone_nodes(&self.children), position: self.position }
    }
}

impl Clone for ListItem {
    fn clone(&self) -> (res: Self)
        ensures
            deep_eq(Node::ListItem(*self), Node::ListItem(res)),
        decreases *self,
    {
        ListItem {
            children: clone_nodes(&self.children),
            position: self.position,
            spread: self.spread,
            checked: self.checked,
        }
    }
}

impl Clone for Paragraph {
    fn clone(&self) -> (res: Self)
        ensures
            deep_eq(Node::Paragraph(*self), Node::Paragraph(res)),
        decreases *self,
    {
        Paragraph { children: clone_nodes(&self.children), position: self.position }
    }
}

impl Clone for MdxjsEsm {
    fn clone(&self) -> (res: Self)
        ensures
            deep_eq(Node::MdxjsEsm(*self), Node::MdxjsEsm(res)),
    {
        MdxjsEsm {
            value: self.value.clone(),
            position: self.position,
            stops: vstd::slice::slice_to_vec(self.stops.as_slice()),
        }
    }
}

impl Clone for MdxFlowExpression {
    fn clone(&self) -> (res: Self)
        ensures
            deep_eq(Node::MdxFlowExpression(*self), Node::MdxFlowExpression(res)),
    {
        MdxFlowExpression {
            value: self.value.clone(),
            position: self.position,
            stops: vstd::slice::slice_to_vec(self.stops.as_slice()),
        }
    }
}

impl Clone for MdxTextExpression {
    fn clone(&self) -> (res: Self)
        ensures
            deep_eq(Node::MdxTextExpression(*self), Node::MdxTextExpression(res)),
    {
        MdxTextExpression {
            value: self.value.clone(),
            position: self.position,
            stops: vstd::slice::slice_to_vec(self.stops.as_slice()),
        }
    }
}

impl Clone for Toml {
    fn clone(&self) -> (res: Self)
        ensures
            res == *self,
    {
        Toml { value: self.value.clone(), position: self.position }
    }
}

impl Clone for Yaml {
    fn clone(&self) -> (res: Self)
        ensures
            res == *self,
    {
        Yaml { value: self.value.clone(), position: self.position }
    }
}

impl Clone for Break {
    fn clone(&self) -> (res: Self)
        ensures
            res == *self,
    {
        Break { position: self.position }
    }
}

impl Clone for InlineCode {
    fn clone(&self) -> (res: Self)
        ensures
            res == *self,
    {
        InlineCode { value: self.value.clone(), position: self.position }
    }
}

impl Clone for InlineMath {
    fn clone(&self) -> (res: Self)
        ensures
            res == *self,
    {
        InlineMath { value: self.value.clone(), position: self.position }
    }
}

impl Clone for FootnoteReference {
    fn clone(&self) -> (res: Self)
        ensures
            res == *self,
    {
        FootnoteReference {
            position: self.position,
            identifier: self.identifier.clone(),
            label: self.label.clone(),
        }
    }
}

impl Clone for Html {
    fn clone(&self) -> (res: Self)
        ensures
            res == *self,
    {
        Html { value: self.value.clone(), position: self.position }
    }
}

impl Clone for Image {
    fn clone(&self) -> (res: Self)
        ensures
            res == *self,
    {
        Image {
            position: self.position,
            alt: self.alt.clone(),
            url: self.url.clone(),
            title: self.title.clone(),
        }
    }
}

impl Clone for ImageReference {
    fn clone(&self) -> (res: Self)
        ensures
            res == *self,
    {
        ImageReference {
            position: self.position,
            alt: self.alt.clone(),
            reference_kind: self.reference_kind,
            identifier: self.identifier.clone(),
            label: self.label.clone(),
        }
    }
}

impl Clone for Text {
    fn clone(&self) -> (res: Self)
        ensures
            res == *self,
    {
        Text { value: self.value.clone(), position: self.position }
    }
}

impl Clone for Code {
    fn clone(&self) -> (res: Self)
        ensures
            res == *self,
    {
        Code {
            value: self.value.clone(),
            position: self.position,
            lang: self.lang.clone(),
            meta: self.meta.clone(),
        }
    }
}

impl Clone for Math {
    fn clone(&self) -> (res: Self)
        ensures
            res == *self,
    {
        Math { value: self.value.clone(), position: self.position, meta: self.meta.clone() }
    }
}

impl Clone for ThematicBreak {
    fn clone(&self) -> (res: Self)
        ensures
            res == *self,
    {
        ThematicBreak { position: self.position }
    }
}

impl Clone for Definition {
    fn clone(&self) -> (res: Self)
        ensures
            res == *self,
    {
        Definition {
            position: self.position,
            url: self.url.clone(),
            title: self.title.clone(),
            identifier: self.identifier.clone(),
            label: self.label.clone(),
        }
    }
}

impl Clone for MdxJsxAttribute {
    fn clone(&self) -> (res: Self)
        ensures
            res.name == self.name,
            value_opt_eq(self.value, res.value),
    {
        MdxJsxAttribute {
            name: self.name.clone(),
            value: match &self.value {
                Option::Some(v) => Option::Some(v.clone()),
                Option::None => Option::None,
            },
        }
    }
}

impl Clone for AttributeValue {
    fn clone(&self) -> (res: Self)
        ensures
            value_eq(*self, res),
    {
        match self {
            AttributeValue::Expression(s, v) => AttributeValue::Expression(
                s.clone(),
                vstd::slice::slice_to_vec(v.as_slice()),
            ),
            AttributeValue::Literal(s) => AttributeValue::Literal(s.clone()),
        }
    }
}

impl Clone for AttributeContent {
    fn clone(&self) -> (res: Self)
        ensures
            attr_eq(*self, res),
    {
        match self {
            AttributeContent::Expression(s, v) => AttributeContent::Expression(
                s.clone(),
                vstd::slice::slice_to_vec(v.as_slice()),
            ),
            AttributeContent::Property(p) => AttributeContent::Property(p.clone()),
        }
    }
}

} // verus!
