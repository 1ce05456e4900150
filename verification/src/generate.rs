//! Canonical serialization of a syntax tree to markdown text.

use crate::mdast::{deep_eq, deep_eq_seq, with_position, Node, Paragraph, Root, Text};
use crate::unist::Position;
use vstd::prelude::*;

verus! {

/// Holds when the serializer handles the node: the variants it renders,
/// with every descendant handled too. The remaining variants are not yet
/// rendered and are deliberately left out rather than silently dropped.
pub open spec fn serializable(n: Node) -> bool
    decreases n,
{
    match n {
        Node::Root(x) => serializable_seq(x.children@),
        Node::BlockQuote(x) => serializable_seq(x.children@),
        Node::Delete(x) => serializable_seq(x.children@),
        Node::Emphasis(x) => serializable_seq(x.children@),
        Node::Link(x) => serializable_seq(x.children@),
        Node::Strong(x) => serializable_seq(x.children@),
        Node::Heading(x) => serializable_seq(x.children@),
        Node::Paragraph(x) => serializable_seq(x.children@),
        Node::Text(_) => true,
        _ => false,
    }
}

/// Holds when every node of the sequence is serializable.
pub open spec fn serializable_seq(s: Seq<Node>) -> bool
    decreases s,
{
    forall|i: int| 0 <= i < s.len() ==> serializable(#[trigger] s[i])
}

/// A run of `n` number-sign markers, the prefix of an ATX heading.
pub open spec fn hashes(n: nat) -> Seq<char> {
    Seq::new(n, |i: int| '#')
}

/// The index of the last line ending in `s`, or `-1` when `s` has none.
pub open spec fn last_newline(s: Seq<char>) -> int
    decreases s,
{
    if s.len() == 0 {
        -1
    } else if s.last() == '\n' {
        s.len() - 1
    } else {
        last_newline(s.drop_last())
    }
}

/// `s` with a `> ` marker inserted after every line ending.
pub open spec fn requote(s: Seq<char>) -> Seq<char>
    decreases s,
{
    if s.len() == 0 {
        Seq::empty()
    } else if s.last() == '\n' {
        requote(s.drop_last()) + seq!['\n', '>', ' ']
    } else {
        requote(s.drop_last()) + seq![s.last()]
    }
}

/// The rendering of a block quote whose children render to `kids`: a `> `
/// marker first, every line ending of `kids` but the last followed by its
/// own marker, the last line ending dropped, and a final line ending. When
/// `kids` has no line ending at all it is dropped entirely.
pub open spec fn quote(kids: Seq<char>) -> Seq<char> {
    let l: int = last_newline(kids);
    if l >= 0 {
        seq!['>', ' '] + requote(kids.subrange(0, l)) + kids.subrange(l + 1, kids.len() as int)
            + seq!['\n']
    } else {
        seq!['>', ' ', '\n']
    }
}

/// The canonical markdown rendering of a serializable node.
pub open spec fn spec_markdown(n: Node) -> Seq<char>
    decreases n,
{
    match n {
        Node::Root(x) => spec_markdown_seq(x.children@),
        Node::BlockQuote(x) => quote(spec_markdown_seq(x.children@)),
        Node::Delete(x) => seq!['~', '~'] + spec_markdown_seq(x.children@) + seq!['~', '~'],
        Node::Emphasis(x) => seq!['*'] + spec_markdown_seq(x.children@) + seq!['*'],
        Node::Link(x) => seq!['['] + spec_markdown_seq(x.children@) + seq![']', '('] + x.url@
            + seq![')'],
        Node::Strong(x) => seq!['*', '*'] + spec_markdown_seq(x.children@) + seq!['*', '*'],
        Node::Text(x) => x.value@,
        Node::Heading(x) => hashes(x.depth as nat) + seq![' '] + spec_markdown_seq(x.children@)
            + seq!['\n', '\n'],
        Node::Paragraph(x) => spec_markdown_seq(x.children@) + seq!['\n'],
        _ => Seq::empty(),
    }
}

/// The concatenated renderings of a sequence of nodes, in order.
pub open spec fn spec_markdown_seq(s: Seq<Node>) -> Seq<char>
    decreases s,
{
    if s.len() == 0 {
        Seq::empty()
    } else {
        spec_markdown_seq(s.drop_last()) + spec_markdown(s.last())
    }
}

/// Inserting markers commutes with concatenation.
proof fn lemma_requote_append(a: Seq<char>, b: Seq<char>)
    ensures
        requote(a + b) == requote(a) + requote(b),
    decreases b.len(),
{
    if b.len() == 0 {
        assert(a + b =~= a);
        assert(requote(a) + requote(b) =~= requote(a));
    } else {
        lemma_requote_append(a, b.drop_last());
        assert((a + b).drop_last() =~= a + b.drop_last());
        assert((a + b).last() == b.last());
        assert(requote(a + b) =~= requote(a) + requote(b));
    }
}

/// Inserting markers leaves a text without line endings unchanged.
proof fn lemma_requote_plain(s: Seq<char>)
    requires
        forall|j: int| 0 <= j < s.len() ==> s[j] != '\n',
    ensures
        requote(s) == s,
    decreases s.len(),
{
    if s.len() > 0 {
        lemma_requote_plain(s.drop_last());
    }
    assert(requote(s) =~= s);
}

/// The last line ending of `s` is at `k` exactly when `s[k]` is a line
/// ending with none after it.
proof fn lemma_last_newline_at(s: Seq<char>, k: int)
    requires
        0 <= k < s.len(),
        s[k] == '\n',
        forall|j: int| k < j < s.len() ==> s[j] != '\n',
    ensures
        last_newline(s) == k,
    decreases s.len(),
{
    if k < s.len() - 1 {
        lemma_last_newline_at(s.drop_last(), k);
    }
}

/// A text without line endings has no last line ending.
proof fn lemma_last_newline_missing(s: Seq<char>)
    requires
        forall|j: int| 0 <= j < s.len() ==> s[j] != '\n',
    ensures
        last_newline(s) == -1,
    decreases s.len(),
{
    if s.len() > 0 {
        lemma_last_newline_missing(s.drop_last());
    }
}

/// Every line ending inside a marked text is followed by the marker.
proof fn lemma_requote_marked(s: Seq<char>)
    ensures
        forall|i: int|
            0 <= i < requote(s).len() && #[trigger] requote(s)[i] == '\n' ==> i + 2
                < requote(s).len() && requote(s)[i + 1] == '>' && requote(s)[i + 2] == ' ',
    decreases s.len(),
{
    if s.len() > 0 {
        lemma_requote_marked(s.drop_last());
        let pre = requote(s.drop_last());
        assert forall|i: int|
            0 <= i < requote(s).len() && #[trigger] requote(s)[i] == '\n' implies i + 2
            < requote(s).len() && requote(s)[i + 1] == '>' && requote(s)[i + 2] == ' ' by {
            if i < pre.len() {
                assert(pre[i] == '\n');
            }
        }
    }
}

/// The last line ending of `s` is where `last_newline` says: a line ending
/// with none after it, or absent from all of `s`.
proof fn lemma_last_newline_props(s: Seq<char>)
    ensures
        -1 <= last_newline(s) < s.len(),
        last_newline(s) >= 0 ==> s[last_newline(s)] == '\n',
        forall|j: int| last_newline(s) < j < s.len() ==> s[j] != '\n',
    decreases s.len(),
{
    if s.len() > 0 && s.last() != '\n' {
        lemma_last_newline_props(s.drop_last());
        assert forall|j: int| last_newline(s) < j < s.len() implies s[j] != '\n' by {
            if j < s.len() - 1 {
                assert(s.drop_last()[j] != '\n');
            }
        }
    }
}

/// Law: every line of a rendered block quote is introduced by the quote
/// marker. The rendering starts with `> `, ends with a line ending, and
/// every line ending but the final one is followed by `> `.
pub proof fn lemma_quote_lines_marked(kids: Seq<char>)
    ensures
        quote(kids).len() >= 3,
        quote(kids)[0] == '>',
        quote(kids)[1] == ' ',
        quote(kids).last() == '\n',
        forall|i: int|
            0 <= i < quote(kids).len() - 1 && #[trigger] quote(kids)[i] == '\n' ==> i + 2
                < quote(kids).len() && quote(kids)[i + 1] == '>' && quote(kids)[i + 2] == ' ',
{
    lemma_last_newline_props(kids);
    let l: int = last_newline(kids);
    if l >= 0 {
        let pre = kids.subrange(0, l);
        let post = kids.subrange(l + 1, kids.len() as int);
        lemma_requote_marked(pre);
        let out = quote(kids);
        assert(out =~= seq!['>', ' '] + requote(pre) + post + seq!['\n']);
        assert forall|i: int|
            0 <= i < out.len() - 1 && #[trigger] out[i] == '\n' implies i + 2 < out.len()
            && out[i + 1] == '>' && out[i + 2] == ' ' by {
            let m = requote(pre);
            if 2 <= i < 2 + m.len() {
                assert(m[i - 2] == '\n');
            } else if 2 + m.len() <= i < out.len() - 1 {
                assert(post[i - 2 - m.len()] == '\n');
                assert(kids[l + 1 + (i - 2 - m.len())] == '\n');
            }
        }
    }
}

/// Law: a document holding one paragraph of one text node renders to the
/// text's value followed by one line ending.
pub proof fn lemma_plain_text_document(t: Text, p: Paragraph, root: Root)
    requires
        p.children@ == seq![Node::Text(t)],
        root.children@ == seq![Node::Paragraph(p)],
    ensures
        serializable(Node::Root(root)),
        spec_markdown(Node::Root(root)) == t.value@ + seq!['\n'],
{
    let inner = p.children@;
    let outer = root.children@;
    assert(inner.drop_last() =~= Seq::<Node>::empty());
    assert(outer.drop_last() =~= Seq::<Node>::empty());
    assert(spec_markdown_seq(Seq::<Node>::empty()) == Seq::<char>::empty());
    assert(spec_markdown_seq(inner) == spec_markdown_seq(inner.drop_last()) + spec_markdown(
        inner.last(),
    ));
    assert(spec_markdown_seq(inner) =~= t.value@);
    assert(spec_markdown_seq(outer) == spec_markdown_seq(outer.drop_last()) + spec_markdown(
        outer.last(),
    ));
    assert(spec_markdown_seq(outer) =~= t.value@ + seq!['\n']);
    assert(serializable(Node::Text(t)));
    assert(serializable(Node::Paragraph(p)));
    assert(serializable(Node::Root(root)));
}

/// Law: the rendering reads nothing from positional info: editing a node's
/// position changes neither whether it serializes nor what it renders to.
pub proof fn lemma_markdown_ignores_position(n: Node, p: Option<Position>)
    ensures
        serializable(with_position(n, p)) == serializable(n),
        spec_markdown(with_position(n, p)) == spec_markdown(n),
{
}

/// Law: structurally equal trees render identically: one serializes
/// exactly when the other does, and to the same text.
pub proof fn lemma_deep_eq_same_markdown(a: Node, b: Node)
    requires
        deep_eq(a, b),
    ensures
        serializable(a) == serializable(b),
        spec_markdown(a) == spec_markdown(b),
    decreases a,
{
    match (a, b) {
        (Node::Root(x), Node::Root(y)) => lemma_deep_eq_seq_same_markdown(
            x.children@,
            y.children@,
        ),
        (Node::BlockQuote(x), Node::BlockQuote(y)) => lemma_deep_eq_seq_same_markdown(
            x.children@,
            y.children@,
        ),
        (Node::Delete(x), Node::Delete(y)) => lemma_deep_eq_seq_same_markdown(
            x.children@,
            y.children@,
        ),
        (Node::Emphasis(x), Node::Emphasis(y)) => lemma_deep_eq_seq_same_markdown(
            x.children@,
            y.children@,
        ),
        (Node::Link(x), Node::Link(y)) => lemma_deep_eq_seq_same_markdown(
            x.children@,
            y.children@,
        ),
        (Node::Strong(x), Node::Strong(y)) => lemma_deep_eq_seq_same_markdown(
            x.children@,
            y.children@,
        ),
        (Node::Heading(x), Node::Heading(y)) => lemma_deep_eq_seq_same_markdown(
            x.children@,
            y.children@,
        ),
        (Node::Paragraph(x), Node::Paragraph(y)) => lemma_deep_eq_seq_same_markdown(
            x.children@,
            y.children@,
        ),
        _ => {},
    }
}

/// Law: pairwise structurally equal node sequences render identically.
pub proof fn lemma_deep_eq_seq_same_markdown(x: Seq<Node>, y: Seq<Node>)
    requires
        deep_eq_seq(x, y),
    ensures
        serializable_seq(x) == serializable_seq(y),
        spec_markdown_seq(x) == spec_markdown_seq(y),
    decreases x,
{
    if serializable_seq(x) {
        assert forall|i: int| 0 <= i < y.len() implies serializable(#[trigger] y[i]) by {
            assert(decreases_to!(x => x[i]));
            lemma_deep_eq_same_markdown(x[i], y[i]);
        }
    }
    if serializable_seq(y) {
        assert forall|i: int| 0 <= i < x.len() implies serializable(#[trigger] x[i]) by {
            assert(decreases_to!(x => x[i]));
            lemma_deep_eq_same_markdown(x[i], y[i]);
        }
    }
    if x.len() > 0 {
        assert(deep_eq_seq(x.drop_last(), y.drop_last()));
        lemma_deep_eq_seq_same_markdown(x.drop_last(), y.drop_last());
        lemma_deep_eq_same_markdown(x.last(), y.last());
    }
}

/// Renders the children of a block quote: the `> ` marker first, each line
/// of `kids` but the last prefixed with its own marker, and a final line
/// ending. `kids` without any line ending is dropped entirely.
fn quote_content(kids: &str) -> (r: String)
    ensures
        r@ == quote(kids@),
{
    let l: usize = kids.unicode_len();
    // Find the last line ending.
    let mut last: usize = 0;
    let mut found: bool = false;
    let mut i: usize = 0;
    while i < l
        invariant
            l == kids@.len(),
            i <= l,
            found ==> last < i && kids@[last as int] == '\n' && (forall|j: int|
                last < j < i ==> kids@[j] != '\n'),
            !found ==> forall|j: int| 0 <= j < i ==> kids@[j] != '\n',
        decreases l - i,
    {
        if kids.get_char(i) == '\n' {
            last = i;
            found = true;
        }
        i += 1;
    }
    proof {
        if found {
            lemma_last_newline_at(kids@, last as int);
        } else {
            lemma_last_newline_missing(kids@);
        }
        reveal_strlit("> ");
        reveal_strlit("\n");
    }
    let mut r = String::new();
    r.append("> ");
    proof {
        assert(r@ =~= seq!['>', ' ']);
    }
    if found {
        let mut seg: usize = 0;
        let mut i: usize = 0;
        while i < l
            invariant
                l == kids@.len(),
                i <= l,
                seg <= i,
                last < l,
                kids@[last as int] == '\n',
                forall|j: int| last < j < l ==> kids@[j] != '\n',
                forall|j: int| seg <= j < i ==> kids@[j] != '\n',
                seg <= last ==> r@ == seq!['>', ' '] + requote(kids@.subrange(0, seg as int)),
                seg > last ==> seg == last + 1 && r@ == seq!['>', ' '] + requote(
                    kids@.subrange(0, last as int),
                ),
            decreases l - i,
        {
            let c = kids.get_char(i);
            if c == '\n' {
                // Every line ending sits at or before `last`.
                assert(i <= last);
                let ghost pre = kids@.subrange(0, seg as int);
                let ghost mid = kids@.subrange(seg as int, i as int);
                if i < last {
                    let piece = kids.substring_char(seg, i + 1);
                    r.append(piece);
                    r.append("> ");
                    proof {
                        reveal_strlit("> ");
                        let cur = kids@.subrange(seg as int, i + 1 as int);
                        lemma_requote_append(pre, cur);
                        lemma_requote_plain(mid);
                        assert(cur.drop_last() =~= mid);
                        assert(kids@.subrange(0, i + 1 as int) =~= pre + cur);
                        assert(r@ =~= seq!['>', ' '] + requote(kids@.subrange(0, i + 1 as int)));
                    }
                } else {
                    let piece = kids.substring_char(seg, i);
                    r.append(piece);
                    proof {
                        lemma_requote_append(pre, mid);
                        lemma_requote_plain(mid);
                        assert(kids@.subrange(0, last as int) =~= pre + mid);
                        assert(r@ =~= seq!['>', ' '] + requote(kids@.subrange(0, last as int)));
                    }
                }
                seg = i + 1;
            }
            i += 1;
        }
        // Every line ending has been handled, so `seg` passed `last`.
        assert(seg == last + 1);
        let piece = kids.substring_char(seg, l);
        r.append(piece);
        r.append("\n");
        proof {
            reveal_strlit("\n");
            assert(r@ =~= quote(kids@));
        }
    } else {
        r.append("\n");
        proof {
            reveal_strlit("\n");
            assert(r@ =~= quote(kids@));
        }
    }
    r
}

/// Converts an mdast node into a markdown string.
///
/// This will convert to a canonical representation, and will not take into
/// account how the original element was formatted. For example, underlined
/// headers will be converted to their `#`-prefixed equivalents and so on.
pub fn to_markdown(node: &Node) -> (r: String)
    requires
        serializable(*node),
    ensures
        r@ == spec_markdown(*node),
    decreases *node,
{
    match node {
        Node::Root(x) => markdown_children(x.children.as_slice()),
        Node::BlockQuote(x) => {
            let kids = markdown_children(x.children.as_slice());
            quote_content(kids.as_str())
        },
        Node::Delete(x) => {
            let mut r = String::new();
            r.append("~~");
            let kids = markdown_children(x.children.as_slice());
            r.append(kids.as_str());
            r.append("~~");
            proof {
                reveal_strlit("~~");
                assert(r@ =~= spec_markdown(*node));
            }
            r
        },
        Node::Emphasis(x) => {
            let mut r = String::new();
            r.append("*");
            let kids = markdown_children(x.children.as_slice());
            r.append(kids.as_str());
            r.append("*");
            proof {
                reveal_strlit("*");
                assert(r@ =~= spec_markdown(*node));
            }
            r
        },
        Node::Link(x) => {
            let mut r = String::new();
            r.append("[");
            let kids = markdown_children(x.children.as_slice());
            r.append(kids.as_str());
            r.append("](");
            r.append(x.url.as_str());
            r.append(")");
            proof {
                reveal_strlit("[");
                reveal_strlit("](");
                reveal_strlit(")");
                assert(r@ =~= spec_markdown(*node));
            }
            r
        },
        Node::Strong(x) => {
            let mut r = String::new();
            r.append("**");
            let kids = markdown_children(x.children.as_slice());
            r.append(kids.as_str());
            r.append("**");
            proof {
                reveal_strlit("**");
                assert(r@ =~= spec_markdown(*node));
            }
            r
        },
        Node::Text(x) => x.value.clone(),
        Node::Heading(x) => {
            let mut r = String::new();
            let mut i: u8 = 0;
            while i < x.depth
                invariant
                    i <= x.depth,
                    r@ == hashes(i as nat),
                decreases x.depth - i,
            {
                r.append("#");
                proof {
                    reveal_strlit("#");
                    assert(r@ =~= hashes((i + 1) as nat));
                }
                i += 1;
            }
            r.append(" ");
            let kids = markdown_children(x.children.as_slice());
            r.append(kids.as_str());
            r.append("\n\n");
            proof {
                reveal_strlit(" ");
                reveal_strlit("\n\n");
                assert(r@ =~= spec_markdown(*node));
            }
            r
        },
        Node::Paragraph(x) => {
            let mut r = markdown_children(x.children.as_slice());
            r.append("\n");
            proof {
                reveal_strlit("\n");
                assert(r@ =~= spec_markdown(*node));
            }
            r
        },
        // Every other variant is not serializable.
        _ => unreached(),
    }
}

/// Concatenates the renderings of the nodes, in order.
fn markdown_children(children: &[Node]) -> (r: String)
    requires
        serializable_seq(children@),
    ensures
        r@ == spec_markdown_seq(children@),
    decreases children@,
{
    let mut r = String::new();
    let mut i: usize = 0;
    while i < children.len()
        invariant
            serializable_seq(children@),
            i <= children@.len(),
            r@ == spec_markdown_seq(children@.subrange(0, i as int)),
        decreases children@.len() - i,
    {
        proof {
            assert(decreases_to!(children@ => children@[i as int]));
        }
        let s = to_markdown(&children[i]);
        r.append(s.as_str());
        proof {
            let pre = children@.subrange(0, i as int);
            let cur = children@.subrange(0, i as int + 1);
            assert(cur.drop_last() =~= pre);
            assert(cur.last() == children@[i as int]);
        }
        i += 1;
    }
    proof {
        assert(children@.subrange(0, children@.len() as int) =~= children@);
    }
    r
}

} // verus!
