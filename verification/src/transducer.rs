//! The numbering transducer: one pass over a chapter's nodes that gives
//! every heading its label.

use vstd::prelude::*;
use vstd::string::*;
use crate::config::NumberingStyle;
use crate::diagnostic::{Diagnostic, DiagnosticView};
use crate::label::label_of;
use crate::level::HeadingLevel;
use crate::node::{HeadingView, Node, NodeView};
use crate::stack::{above_chapter, entered, heading_depth, numbers, skips_level, NumberStack};

verus! {

/// The inline markup that shows `label` in front of a heading's text.
pub open spec fn label_markup(label: Seq<char>) -> Seq<char> {
    "<span class=\"heading numbering\">"@ + label + " </span>"@
}

/// What takes the place of the heading `heading` once it carries `label`:
/// the heading with the label recorded as its `data-numbering` attribute,
/// and right behind it the markup that shows the same label.
pub open spec fn labelled(heading: HeadingView, label: Seq<char>) -> Seq<NodeView> {
    seq![
        NodeView::HeadingStart(heading.with_attr("data-numbering"@, Some(label))),
        NodeView::InlineHtml(label_markup(label)),
    ]
}

/// The number stack after every heading of `nodes` has been entered, in
/// order, starting from the chapter number `base`.
pub open spec fn stack_after(nodes: Seq<NodeView>, base: Seq<nat>, style: NumberingStyle) -> Seq<nat>
    decreases nodes.len(),
{
    if nodes.len() == 0 {
        base
    } else {
        let before = stack_after(nodes.drop_last(), base, style);
        match nodes.last() {
            NodeView::HeadingStart(heading) => entered(
                before,
                heading_depth(style, heading.level, base.len()),
                base.len(),
            ),
            _ => before,
        }
    }
}

/// `nodes` with every heading labelled: a heading carries the label of the
/// stack as it stands once that heading has been entered; every other node
/// stays as it is, where it is.
pub open spec fn numbered(nodes: Seq<NodeView>, base: Seq<nat>, style: NumberingStyle) -> Seq<
    NodeView,
>
    decreases nodes.len(),
{
    if nodes.len() == 0 {
        Seq::empty()
    } else {
        let before = numbered(nodes.drop_last(), base, style);
        match nodes.last() {
            NodeView::HeadingStart(heading) => before + labelled(
                heading,
                label_of(stack_after(nodes, base, style)),
            ),
            other => before.push(other),
        }
    }
}

/// The diagnostics that a heading of level `level` gives when it is met with
/// the stack at `stack`: first the skipped level, then the heading above the
/// chapter, each only where it applies.
pub open spec fn heading_warnings(
    level: HeadingLevel,
    stack: Seq<nat>,
    base_len: nat,
    style: NumberingStyle,
    chapter: Seq<char>,
) -> Seq<DiagnosticView> {
    let depth = heading_depth(style, level, base_len);
    (if skips_level(stack, depth) {
        seq![
            DiagnosticView::LevelSkipped {
                level,
                known_levels: stack.len(),
                numbering: label_of(stack),
                chapter,
            },
        ]
    } else {
        Seq::empty()
    }) + (if above_chapter(style, depth, base_len) {
        seq![DiagnosticView::AboveChapter { level, numbering: label_of(stack), chapter }]
    } else {
        Seq::empty()
    })
}

/// The diagnostics of all headings of `nodes`, in the order of the headings.
pub open spec fn warnings(
    nodes: Seq<NodeView>,
    chapter: Seq<char>,
    base: Seq<nat>,
    style: NumberingStyle,
) -> Seq<DiagnosticView>
    decreases nodes.len(),
{
    if nodes.len() == 0 {
        Seq::empty()
    } else {
        let before = warnings(nodes.drop_last(), chapter, base, style);
        match nodes.last() {
            NodeView::HeadingStart(heading) => before + heading_warnings(
                heading.level,
                stack_after(nodes.drop_last(), base, style),
                base.len(),
                style,
                chapter,
            ),
            _ => before,
        }
    }
}

/// The chapter number that `base_number` stands for, if there is one.
pub open spec fn base_of(base_number: Option<&Vec<u32>>) -> Option<Seq<nat>> {
    match base_number {
        Some(base) => Some(numbers(base@)),
        None => None,
    }
}

/// What the transducer makes of `nodes`: with numbering switched on and a
/// chapter number at hand, the numbered nodes; else `nodes` as they are.
pub open spec fn transduced(
    nodes: Seq<NodeView>,
    base: Option<Seq<nat>>,
    style: NumberingStyle,
    heading_enabled: bool,
) -> Seq<NodeView> {
    match base {
        Some(base) if heading_enabled => numbered(nodes, base, style),
        _ => nodes,
    }
}

/// The diagnostics that the transducer gives for `nodes`: those of the
/// headings where it numbers, none where it does not.
pub open spec fn transduce_warnings(
    nodes: Seq<NodeView>,
    chapter: Seq<char>,
    base: Option<Seq<nat>>,
    style: NumberingStyle,
    heading_enabled: bool,
) -> Seq<DiagnosticView> {
    match base {
        Some(base) if heading_enabled => warnings(nodes, chapter, base, style),
        _ => Seq::empty(),
    }
}

/// The inline markup that shows `label` in front of a heading's text.
pub fn label_node(label: &str) -> (node: Node)
    ensures
        node.deep_view() == NodeView::InlineHtml(label_markup(label@)),
{
    let mut markup = String::from_str("<span class=\"heading numbering\">");
    markup.append(label);
    markup.append(" </span>");
    Node::InlineHtml(markup)
}

/// Numbers the headings of one chapter.
///
/// With `heading_enabled` and a chapter number, every heading of `nodes` is
/// entered on a fresh number stack seeded with the chapter number, gets the
/// stack's label as its `data-numbering` attribute, and is followed by the
/// markup that shows the label. Irregular headings are reported in the
/// second component and numbered all the same. Without a chapter number, or
/// with numbering switched off, the nodes come back as they went in.
pub fn transduce(
    nodes: Vec<Node>,
    chapter: &str,
    base_number: Option<&Vec<u32>>,
    style: NumberingStyle,
    heading_enabled: bool,
) -> (out: (Vec<Node>, Vec<Diagnostic>))
    requires
        base_number matches Some(base) ==> base.len() + 6 <= usize::MAX,
    ensures
        out.0.deep_view() == transduced(
            nodes.deep_view(),
            base_of(base_number),
            style,
            heading_enabled,
        ),
        out.1.deep_view() == transduce_warnings(
            nodes.deep_view(),
            chapter@,
            base_of(base_number),
            style,
            heading_enabled,
        ),
        !heading_enabled || base_number is None ==> out.0 == nodes,
{
    if !heading_enabled {
        return (nodes, Vec::new());
    }
    let base = match base_number {
        Some(base) => base,
        None => {
            return (nodes, Vec::new());
        },
    };
    let count = nodes.len();
    let ghost all = nodes.deep_view();
    let ghost start = numbers(base@);
    let mut stack = NumberStack::new(base);
    let mut out: Vec<Node> = Vec::new();
    let mut found: Vec<Diagnostic> = Vec::new();
    for node in it: nodes
        invariant
            it.seq() == nodes@,
            nodes@.len() == count,
            all == nodes.deep_view(),
            start == numbers(base@),
            base.len() + 6 <= usize::MAX,
            stack.base_len() == base.len(),
            stack@ == stack_after(all.take(it.index()), start, style),
            stack@.len() <= base.len() + 6,
            forall|k: int| base.len() <= k < stack@.len() ==> stack@[k] <= it.index(),
            out.deep_view() == numbered(all.take(it.index()), start, style),
            found.deep_view() == warnings(all.take(it.index()), chapter@, start, style),
    {
        let ghost done = all.take(it.index());
        let ghost next = all.take(it.index() + 1);
        assert(next.drop_last() =~= done);
        match node {
            Node::HeadingStart(mut heading) => {
                let depth = stack.depth_of(style, heading.level);
                if depth > stack.len() && depth - 1 > stack.len() {
                    let skipped = Diagnostic::LevelSkipped {
                        level: heading.level,
                        known_levels: stack.len(),
                        numbering: stack.label(),
                        chapter: String::from_str(chapter),
                    };
                    found.push(skipped);
                }
                if stack.is_above_chapter(style, depth) {
                    let above = Diagnostic::AboveChapter {
                        level: heading.level,
                        numbering: stack.label(),
                        chapter: String::from_str(chapter),
                    };
                    found.push(above);
                }
                stack.enter(depth);
                let label = stack.label();
                let shown = label_node(label.as_str());
                heading.push_attr(String::from_str("data-numbering"), Some(label));
                out.push(Node::HeadingStart(heading));
                out.push(shown);
            },
            other => {
                out.push(other);
            },
        }
    }
    assert(all.take(all.len() as int) =~= all);
    (out, found)
}

} // verus!
