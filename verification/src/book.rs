//! The items of a book, as far as the numbering reads and writes them.

use vstd::prelude::*;
use crate::stack::numbers;

verus! {

/// A chapter of the book.
#[derive(Debug, Clone, PartialEq, Eq)]
pub struct Chapter {
    /// The name of the chapter.
    pub name: String,
    /// The Markdown text of the chapter.
    pub content: String,
    /// The chapter's place in the book's hierarchy, outermost part first,
    /// where the chapter is numbered.
    pub number: Option<Vec<u32>>,
    /// Whether the chapter is a draft: a placeholder without content.
    pub is_draft: bool,
}

/// An item of the book.
#[derive(Debug, Clone, PartialEq, Eq)]
pub enum BookItem {
    /// A chapter.
    Chapter(Chapter),
    /// A separator between sections.
    Separator,
    /// The title of a part.
    PartTitle(String),
}

/// What a [`Chapter`] holds, as mathematical values.
pub struct ChapterView {
    pub name: Seq<char>,
    pub content: Seq<char>,
    pub number: Option<Seq<nat>>,
    pub is_draft: bool,
}

/// What a [`BookItem`] holds, as mathematical values.
pub enum BookItemView {
    Chapter(ChapterView),
    Separator,
    PartTitle(Seq<char>),
}

impl DeepView for Chapter {
    type V = ChapterView;

    open spec fn deep_view(&self) -> ChapterView {
        ChapterView {
            name: self.name@,
            content: self.content@,
            number: match self.number {
                Some(number) => Some(numbers(number@)),
                None => None,
            },
            is_draft: self.is_draft,
        }
    }
}

impl DeepView for BookItem {
    type V = BookItemView;

    open spec fn deep_view(&self) -> BookItemView {
        match self {
            BookItem::Chapter(chapter) => BookItemView::Chapter(chapter.deep_view()),
            BookItem::Separator => BookItemView::Separator,
            BookItem::PartTitle(title) => BookItemView::PartTitle(title@),
        }
    }
}

impl Chapter {
    /// Whether the chapter's number is short enough for the depth of every
    /// heading to be counted.
    pub open spec fn countable(&self) -> bool {
        self.number matches Some(number) ==> number.len() + 6 <= usize::MAX
    }
}

impl BookItem {
    /// Whether the item is a chapter that gets numbered: a chapter that is
    /// no draft.
    pub open spec fn is_content(&self) -> bool {
        self matches BookItem::Chapter(chapter) && !chapter.is_draft
    }

    /// Whether the item, where it is a chapter, is countable.
    pub open spec fn countable(&self) -> bool {
        self matches BookItem::Chapter(chapter) ==> chapter.countable()
    }
}

} // verus!
