//! The nodes of a chapter's token stream.

use vstd::prelude::*;
use crate::level::HeadingLevel;

verus! {

/// The opening of a heading: its level and what its attribute block holds.
#[derive(Debug, PartialEq)]
pub struct Heading {
    /// The literal level of the heading.
    pub level: HeadingLevel,
    /// The identifier of the heading, if it has one.
    pub id: Option<String>,
    /// The classes of the heading.
    pub classes: Vec<String>,
    /// The other attributes of the heading, each a key with an optional value.
    pub attrs: Vec<(String, Option<String>)>,
}

/// One node of a chapter's token stream.
#[derive(Debug, PartialEq)]
pub enum Node {
    /// The opening of a heading.
    HeadingStart(Heading),
    /// A piece of inline markup that is written out as it stands.
    InlineHtml(String),
    /// Any other event of the stream. It is carried through untouched.
    Other(pulldown_cmark::Event<'static>),
}

/// What a [`Heading`] holds, as mathematical values.
pub struct HeadingView {
    pub level: HeadingLevel,
    pub id: Option<Seq<char>>,
    pub classes: Seq<Seq<char>>,
    pub attrs: Seq<(Seq<char>, Option<Seq<char>>)>,
}

/// What a [`Node`] holds, as mathematical values.
pub enum NodeView {
    HeadingStart(HeadingView),
    InlineHtml(Seq<char>),
    Other(pulldown_cmark::Event<'static>),
}

impl HeadingView {
    /// The same heading with one more attribute at the end of its attributes.
    pub open spec fn with_attr(self, key: Seq<char>, value: Option<Seq<char>>) -> HeadingView {
        HeadingView { attrs: self.attrs.push((key, value)), ..self }
    }
}

impl NodeView {
    /// Whether the node opens a heading.
    pub open spec fn is_heading(self) -> bool {
        self is HeadingStart
    }
}

impl DeepView for Heading {
    type V = HeadingView;

    open spec fn deep_view(&self) -> HeadingView {
        HeadingView {
            level: self.level,
            id: self.id.deep_view(),
            classes: self.classes.deep_view(),
            attrs: self.attrs.deep_view(),
        }
    }
}

impl DeepView for Node {
    type V = NodeView;

    open spec fn deep_view(&self) -> NodeView {
        match self {
            Node::HeadingStart(heading) => NodeView::HeadingStart(heading.deep_view()),
            Node::InlineHtml(html) => NodeView::InlineHtml(html@),
            Node::Other(event) => NodeView::Other(*event),
        }
    }
}

impl Heading {
    /// Appends the attribute `key`, with `value`, to the heading's attributes.
    pub fn push_attr(&mut self, key: String, value: Option<String>)
        ensures
            final(self).deep_view() == old(self).deep_view().with_attr(key@, value.deep_view()),
    {
        self.attrs.push((key, value));
        assert(final(self).attrs.deep_view() =~= old(self).attrs.deep_view().push(
            (key@, value.deep_view()),
        ));
    }
}

} // verus!
