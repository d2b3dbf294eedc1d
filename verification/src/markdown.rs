//! Reading Markdown into nodes and writing nodes back as Markdown.
//!
//! Both directions are the work of outside crates. What they compute is not
//! restated here: it is named, by [`markdown_nodes`] and [`markdown_text`],
//! and the rest of the library is proved for whatever those two are.

use pulldown_cmark::{CowStr, Event, Parser, Tag};
use vstd::prelude::*;
use crate::level::HeadingLevel;
use crate::node::{Heading, Node, NodeView};

verus! {

/// `pulldown_cmark::Event`, an event of the Markdown parser. Nothing is
/// known of what a value of it holds: the library only carries such values
/// from the parser to the serializer.
#[verifier::external_type_specification]
#[verifier::external_body]
pub struct ExEvent<'a>(pulldown_cmark::Event<'a>);

/// `pulldown_cmark_to_cmark::Error`, the error of the serializer. Nothing is
/// known of what a value of it holds.
#[verifier::external_type_specification]
#[verifier::external_body]
pub struct ExSerializeError(pulldown_cmark_to_cmark::Error);

// The option set of the parser is a set of bits, one for each extension.

/// The bit of the parser's option set that switches on tables.
pub const ENABLE_TABLES: u32 = 0x0002;

/// The bit that switches on footnotes.
pub const ENABLE_FOOTNOTES: u32 = 0x0004;

/// The bit that switches on strikethrough.
pub const ENABLE_STRIKETHROUGH: u32 = 0x0008;

/// The bit that switches on task lists.
pub const ENABLE_TASKLISTS: u32 = 0x0010;

/// The bit that switches on the attribute blocks of headings.
pub const ENABLE_HEADING_ATTRIBUTES: u32 = 0x0040;

/// The bit that switches on inline and display math.
pub const ENABLE_MATH: u32 = 0x0400;

/// The bit that switches on the block quote kinds of GitHub's Markdown.
pub const ENABLE_GFM: u32 = 0x0800;

/// The bit that switches on superscript.
pub const ENABLE_SUPERSCRIPT: u32 = 0x2000;

/// The bit that switches on subscript.
pub const ENABLE_SUBSCRIPT: u32 = 0x4000;

/// The option set with which chapters are read.
pub open spec fn chapter_options() -> u32 {
    0x6c5e
}

/// Whether the option set `options` holds the bit `flag`.
pub open spec fn enables(options: u32, flag: u32) -> bool {
    options & flag == flag
}

/// The nodes that the Markdown parser reads from `text` when the extensions
/// in the bit set `options` are switched on.
pub uninterp spec fn markdown_nodes(text: Seq<char>, options: u32) -> Seq<NodeView>;

/// The Markdown that the serializer writes for `nodes`, or `None` where it
/// rejects them as a stream that no Markdown text gives.
pub uninterp spec fn markdown_text(nodes: Seq<NodeView>) -> Option<Seq<char>>;

/// Runs `pulldown_cmark::Parser::new_ext` over `text`, with the extensions of
/// `options` (bits that name no extension are dropped), and hands out every
/// event as a node: a heading's start with its level, identifier, classes and
/// attributes, inline HTML with its text, anything else as it came.
///
/// The contract only gives the result its name: the same text and options
/// always give the same nodes.
#[verifier::external_body]
pub(crate) fn tokenize(text: &str, options: u32) -> (nodes: Vec<Node>)
    ensures
        nodes.deep_view() == markdown_nodes(text@, options),
{
    Parser::new_ext(text, pulldown_cmark::Options::from_bits_truncate(options))
        .map(|event| match event.into_static() {
            Event::Start(Tag::Heading { level, id, classes, attrs }) => Node::HeadingStart(Heading {
                level: HeadingLevel::from_depth(level as usize),
                id: id.map(CowStr::into_string),
                classes: classes.into_iter().map(CowStr::into_string).collect(),
                attrs: attrs.into_iter().map(|(k, v)| (k.into_string(), v.map(CowStr::into_string))).collect(),
            }),
            Event::InlineHtml(html) => Node::InlineHtml(html.into_string()),
            other => Node::Other(other),
        })
        .collect()
}

/// Turns every node back into the event it stands for and runs
/// `pulldown_cmark_to_cmark::cmark_with_options` over them, with that crate's
/// default options, writing into a fresh string. The level of a heading is
/// handed over by its depth, which lies between 1 and 6, so the conversion
/// of the level cannot fail.
///
/// The contract only gives the result its name: the text on success, and
/// `None` where the serializer reports an error. The same nodes always give
/// the same outcome.
#[verifier::external_body]
pub(crate) fn serialize(nodes: Vec<Node>) -> (text: Result<String, pulldown_cmark_to_cmark::Error>)
    ensures
        match text {
            Ok(text) => markdown_text(nodes.deep_view()) == Some(text@),
            Err(_) => markdown_text(nodes.deep_view()) is None,
        },
{
    let events = nodes.into_iter().map(|node| match node {
        Node::HeadingStart(h) => Event::Start(Tag::Heading {
            level: pulldown_cmark::HeadingLevel::try_from(h.level.depth()).unwrap(),
            id: h.id.map(CowStr::from),
            classes: h.classes.into_iter().map(CowStr::from).collect(),
            attrs: h.attrs.into_iter().map(|(k, v)| (CowStr::from(k), v.map(CowStr::from))).collect(),
        }),
        Node::InlineHtml(html) => Event::InlineHtml(CowStr::from(html)),
        Node::Other(event) => event,
    });
    let mut text = String::new();
    pulldown_cmark_to_cmark::cmark_with_options(events, &mut text, Default::default()).map(|_| text)
}

} // verus!
