//! What holds of the numbering as a whole.

use vstd::prelude::*;
use crate::assets::AssetsView;
use crate::book::ChapterView;
use crate::config::{NumberingConfig, NumberingStyle};
use crate::diagnostic::DiagnosticView;
use crate::label::label_of;
use crate::level::HeadingLevel;
use crate::markdown::{chapter_options, markdown_nodes, markdown_text};
use crate::node::{HeadingView, NodeView};
use crate::preprocessor::{chapter_warnings, rendered_nodes, rendered_text};
use crate::stack::{entered, heading_depth};
use crate::transducer::{label_markup, labelled, numbered, stack_after, transduced, warnings};

verus! {

/// The number of headings among `nodes`.
pub open spec fn heading_count(nodes: Seq<NodeView>) -> nat
    decreases nodes.len(),
{
    if nodes.len() == 0 {
        0
    } else {
        heading_count(nodes.drop_last()) + if nodes.last().is_heading() {
            1nat
        } else {
            0nat
        }
    }
}

/// What takes the place of a heading that is labelled twice with `label`:
/// the heading with two numbering attributes, and the label's markup twice.
pub open spec fn labelled_twice(heading: HeadingView, label: Seq<char>) -> Seq<NodeView> {
    seq![
        NodeView::HeadingStart(
            heading.with_attr("data-numbering"@, Some(label)).with_attr(
                "data-numbering"@,
                Some(label),
            ),
        ),
        NodeView::InlineHtml(label_markup(label)),
        NodeView::InlineHtml(label_markup(label)),
    ]
}

/// `nodes` with every heading labelled twice with its label.
pub open spec fn numbered_twice(nodes: Seq<NodeView>, base: Seq<nat>, style: NumberingStyle) -> Seq<
    NodeView,
>
    decreases nodes.len(),
{
    if nodes.len() == 0 {
        Seq::empty()
    } else {
        let before = numbered_twice(nodes.drop_last(), base, style);
        match nodes.last() {
            NodeView::HeadingStart(heading) => before + labelled_twice(
                heading,
                label_of(stack_after(nodes, base, style)),
            ),
            other => before.push(other),
        }
    }
}

/// How the stack, the numbering and the count of headings go on by one node.
proof fn lemma_one_more_node(
    nodes: Seq<NodeView>,
    node: NodeView,
    base: Seq<nat>,
    style: NumberingStyle,
)
    ensures
        stack_after(nodes.push(node), base, style) == match node {
            NodeView::HeadingStart(heading) => entered(
                stack_after(nodes, base, style),
                heading_depth(style, heading.level, base.len()),
                base.len(),
            ),
            _ => stack_after(nodes, base, style),
        },
        numbered(nodes.push(node), base, style) == match node {
            NodeView::HeadingStart(heading) => numbered(nodes, base, style) + labelled(
                heading,
                label_of(stack_after(nodes.push(node), base, style)),
            ),
            other => numbered(nodes, base, style).push(other),
        },
        heading_count(nodes.push(node)) == heading_count(nodes) + if node.is_heading() {
            1nat
        } else {
            0nat
        },
{
    assert(nodes.push(node).drop_last() =~= nodes);
}

/// Every level is the level of its own depth.
pub proof fn law_level_of_own_depth(level: HeadingLevel)
    ensures
        HeadingLevel::spec_from_depth(level.spec_depth()) == level,
        1 <= level.spec_depth() <= 6,
{
}

/// Entering a heading leaves the stack with exactly as many counters as the
/// heading is deep.
pub proof fn law_stack_length_is_depth(stack: Seq<nat>, depth: nat, base_len: nat)
    ensures
        entered(stack, depth, base_len).len() == depth,
{
}

/// A heading at the chapter's own depth is not counted: where the stack
/// still begins with the chapter number, it is the chapter number again.
pub proof fn law_chapter_heading_reuses_number(stack: Seq<nat>, base: Seq<nat>)
    requires
        base.len() <= stack.len(),
        stack.take(base.len() as int) == base,
    ensures
        entered(stack, base.len(), base.len()) == base,
{
}

/// A heading below the chapter's own depth counts one up among its
/// siblings, and leaves the counters above it as they were.
pub proof fn law_sibling_counts_up(stack: Seq<nat>, depth: nat, base_len: nat)
    requires
        base_len < depth <= stack.len(),
    ensures
        entered(stack, depth, base_len)[depth - 1] == stack[depth - 1] + 1,
        entered(stack, depth, base_len).take(depth - 1) == stack.take(depth - 1),
{
}

/// A heading that opens a deeper level starts its counter at one, with a
/// zero for every level that it skips.
pub proof fn law_deeper_level_starts_at_one(stack: Seq<nat>, depth: nat, base_len: nat)
    requires
        depth > stack.len(),
        depth > base_len,
    ensures
        entered(stack, depth, base_len)[depth - 1] == 1,
        entered(stack, depth, base_len).take(stack.len() as int) == stack,
        forall|k: int| stack.len() <= k < depth - 1 ==> entered(stack, depth, base_len)[k] == 0,
{
}

/// Under the `Top` style the stack always begins with the chapter number.
pub proof fn law_top_keeps_chapter_number(nodes: Seq<NodeView>, base: Seq<nat>)
    ensures
        stack_after(nodes, base, NumberingStyle::Top).len() >= base.len(),
        stack_after(nodes, base, NumberingStyle::Top).take(base.len() as int) == base,
    decreases nodes.len(),
{
    if nodes.len() > 0 {
        law_top_keeps_chapter_number(nodes.drop_last(), base);
    }
}

/// Numbering adds one node for every heading and none for any other node.
pub proof fn law_one_label_per_heading(nodes: Seq<NodeView>, base: Seq<nat>, style: NumberingStyle)
    ensures
        numbered(nodes, base, style).len() == nodes.len() + heading_count(nodes),
    decreases nodes.len(),
{
    if nodes.len() > 0 {
        law_one_label_per_heading(nodes.drop_last(), base, style);
    }
}

/// Nodes without a heading pass through the numbering unchanged, and give
/// no diagnostic.
pub proof fn law_without_headings_unchanged(
    nodes: Seq<NodeView>,
    chapter: Seq<char>,
    base: Seq<nat>,
    style: NumberingStyle,
)
    requires
        heading_count(nodes) == 0,
    ensures
        numbered(nodes, base, style) == nodes,
        warnings(nodes, chapter, base, style) == Seq::<DiagnosticView>::empty(),
    decreases nodes.len(),
{
    if nodes.len() > 0 {
        law_without_headings_unchanged(nodes.drop_last(), chapter, base, style);
    }
}

/// Nodes without a heading that stand behind other nodes pass through
/// unchanged and in order, whatever stands before them; they change neither
/// the stack nor the diagnostics.
pub proof fn law_nodes_behind_pass_through(
    front: Seq<NodeView>,
    behind: Seq<NodeView>,
    chapter: Seq<char>,
    base: Seq<nat>,
    style: NumberingStyle,
)
    requires
        heading_count(behind) == 0,
    ensures
        numbered(front + behind, base, style) == numbered(front, base, style) + behind,
        stack_after(front + behind, base, style) == stack_after(front, base, style),
        warnings(front + behind, chapter, base, style) == warnings(front, chapter, base, style),
    decreases behind.len(),
{
    if behind.len() > 0 {
        let rest = behind.drop_last();
        law_nodes_behind_pass_through(front, rest, chapter, base, style);
        assert((front + behind).drop_last() =~= front + rest);
    }
}

/// Every heading of the numbered nodes is followed at once by the markup of
/// a label, and holds the same label as its last attribute, under the key
/// `data-numbering`.
pub proof fn law_label_follows_heading(
    nodes: Seq<NodeView>,
    base: Seq<nat>,
    style: NumberingStyle,
    i: int,
)
    requires
        0 <= i < numbered(nodes, base, style).len(),
        numbered(nodes, base, style)[i].is_heading(),
    ensures
        i + 1 < numbered(nodes, base, style).len(),
        match numbered(nodes, base, style)[i] {
            NodeView::HeadingStart(heading) => heading.attrs.len() > 0 && match heading.attrs.last() {
                (key, Some(label)) => key == "data-numbering"@ && numbered(nodes, base, style)[i
                    + 1] == NodeView::InlineHtml(label_markup(label)),
                _ => false,
            },
            _ => false,
        },
    decreases nodes.len(),
{
    let rest = nodes.drop_last();
    let done = numbered(rest, base, style);
    if i < done.len() {
        law_label_follows_heading(rest, base, style, i);
    }
}

/// Numbering does not change which headings there are, nor their levels:
/// the stack runs over the numbered nodes as it ran over the nodes.
pub proof fn law_numbering_keeps_headings(nodes: Seq<NodeView>, base: Seq<nat>, style: NumberingStyle)
    ensures
        stack_after(numbered(nodes, base, style), base, style) == stack_after(nodes, base, style),
        heading_count(numbered(nodes, base, style)) == heading_count(nodes),
    decreases nodes.len(),
{
    if nodes.len() > 0 {
        let rest = nodes.drop_last();
        law_numbering_keeps_headings(rest, base, style);
        let done = numbered(rest, base, style);
        match nodes.last() {
            NodeView::HeadingStart(heading) => {
                let label = label_of(stack_after(nodes, base, style));
                let first = labelled(heading, label)[0];
                let second = labelled(heading, label)[1];
                assert(numbered(nodes, base, style) =~= done.push(first).push(second));
                lemma_one_more_node(done, first, base, style);
                lemma_one_more_node(done.push(first), second, base, style);
            },
            other => {
                lemma_one_more_node(done, other, base, style);
            },
        }
    }
}

/// The numbering is not idempotent. Numbering what has been numbered labels
/// every heading a second time, with the same label: each heading then holds
/// the numbering attribute twice and is followed by the label's markup
/// twice.
pub proof fn law_numbering_twice_doubles_labels(
    nodes: Seq<NodeView>,
    base: Seq<nat>,
    style: NumberingStyle,
)
    ensures
        numbered(numbered(nodes, base, style), base, style) == numbered_twice(nodes, base, style),
        numbered(numbered(nodes, base, style), base, style).len() == nodes.len() + 2
            * heading_count(nodes),
        heading_count(nodes) > 0 ==> numbered(numbered(nodes, base, style), base, style)
            != numbered(nodes, base, style),
    decreases nodes.len(),
{
    law_one_label_per_heading(nodes, base, style);
    law_one_label_per_heading(numbered(nodes, base, style), base, style);
    law_numbering_keeps_headings(nodes, base, style);
    if nodes.len() > 0 {
        let rest = nodes.drop_last();
        law_numbering_twice_doubles_labels(rest, base, style);
        law_numbering_keeps_headings(rest, base, style);
        let done = numbered(rest, base, style);
        match nodes.last() {
            NodeView::HeadingStart(heading) => {
                let label = label_of(stack_after(nodes, base, style));
                let first = labelled(heading, label)[0];
                let second = labelled(heading, label)[1];
                assert(numbered(nodes, base, style) =~= done.push(first).push(second));
                lemma_one_more_node(done, first, base, style);
                lemma_one_more_node(done.push(first), second, base, style);
            },
            other => {
                lemma_one_more_node(done, other, base, style);
            },
        }
    }
}

/// With heading numbering switched off, a chapter's nodes are those read
/// from its text, followed by nothing but the script and the style of code
/// line numbers, and by nothing at all where those are switched off too:
/// the chapter's text is then what the serializer writes for what the parser
/// read. No diagnostic is given.
pub proof fn law_disabled_numbering_keeps_content(
    chapter: ChapterView,
    config: NumberingConfig,
    assets: AssetsView,
)
    requires
        !config.heading.enable,
    ensures
        config.code.enable ==> rendered_nodes(chapter, config, assets) == markdown_nodes(
            chapter.content,
            chapter_options(),
        ) + seq![
            NodeView::InlineHtml(assets.code_script),
            NodeView::InlineHtml(assets.code_style),
        ],
        !config.code.enable ==> rendered_nodes(chapter, config, assets) == markdown_nodes(
            chapter.content,
            chapter_options(),
        ),
        !config.code.enable ==> rendered_text(chapter, config, assets) == markdown_text(
            markdown_nodes(chapter.content, chapter_options()),
        ),
        chapter_warnings(chapter, config).len() == 0,
{
}

/// The transducer returns the nodes of a chapter without a number as they
/// are, whatever the configuration. Such a chapter's nodes are followed by
/// nothing but the script and the style of code line numbers, where those
/// are switched on; where they are not, the chapter's text is what the
/// serializer writes for what the parser read. No diagnostic is given.
pub proof fn law_unnumbered_chapter_keeps_content(
    chapter: ChapterView,
    config: NumberingConfig,
    assets: AssetsView,
)
    requires
        chapter.number is None,
    ensures
        forall|nodes: Seq<NodeView>|
            #[trigger] transduced(
                nodes,
                chapter.number,
                config.heading.numbering_style,
                config.heading.enable,
            ) == nodes,
        config.code.enable ==> rendered_nodes(chapter, config, assets) == markdown_nodes(
            chapter.content,
            chapter_options(),
        ) + seq![
            NodeView::InlineHtml(assets.code_script),
            NodeView::InlineHtml(assets.code_style),
        ],
        !config.code.enable ==> rendered_nodes(chapter, config, assets) == markdown_nodes(
            chapter.content,
            chapter_options(),
        ),
        !config.code.enable ==> rendered_text(chapter, config, assets) == markdown_text(
            markdown_nodes(chapter.content, chapter_options()),
        ),
        chapter_warnings(chapter, config).len() == 0,
{
}

} // verus!
