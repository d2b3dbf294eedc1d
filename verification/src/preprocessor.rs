//! The preprocessor: what is done to each item of a book.

use vstd::prelude::*;
use crate::assets::{inject, tail, Assets, AssetsView};
use crate::book::{BookItem, BookItemView, Chapter, ChapterView};
use crate::config::{NumberingConfig, Preprocessors};
use crate::diagnostic::{Diagnostic, DiagnosticView};
use crate::markdown::{
    chapter_options, enables, markdown_nodes, markdown_text, serialize, tokenize,
    ENABLE_FOOTNOTES, ENABLE_GFM, ENABLE_HEADING_ATTRIBUTES, ENABLE_MATH, ENABLE_STRIKETHROUGH,
    ENABLE_SUBSCRIPT, ENABLE_SUPERSCRIPT, ENABLE_TABLES, ENABLE_TASKLISTS,
};
use crate::node::{Node, NodeView};
use crate::transducer::{base_of, transduce, transduce_warnings, transduced};

verus! {

/// Why a chapter could not be rendered.
#[derive(Debug, Clone, Copy, PartialEq, Eq, Structural)]
pub enum RenderError {
    /// The serializer rejected the chapter's nodes.
    Serialization,
}

/// What the book's configuration declares for the `katex` preprocessor.
#[derive(Debug, Clone, Copy, PartialEq, Eq, Structural)]
pub struct KatexOrdering {
    /// The preprocessors that `katex` is declared to run after.
    pub after: Preprocessors,
    /// The preprocessors that `katex` is declared to run before.
    pub before: Preprocessors,
}

/// The preprocessor that numbers headings and the lines of code blocks.
pub struct NumberingPreprocessor {
    _private: (),
}

/// The length of a chapter number, where there is one.
pub open spec fn number_len(number: Option<Seq<nat>>) -> Option<nat> {
    match number {
        Some(number) => Some(number.len()),
        None => None,
    }
}

/// The nodes of a chapter once they have been worked on: numbered as the
/// configuration says, with the fragments at the tail.
pub open spec fn completed(
    nodes: Seq<NodeView>,
    number: Option<Seq<nat>>,
    config: NumberingConfig,
    assets: AssetsView,
) -> Seq<NodeView> {
    transduced(nodes, number, config.heading.numbering_style, config.heading.enable) + tail(
        assets,
        config.code.enable,
        config.heading.enable,
        config.heading.numbering_style,
        number_len(number),
    )
}

/// The nodes of a chapter once it has been worked on: the nodes read from
/// its text, completed.
pub open spec fn rendered_nodes(chapter: ChapterView, config: NumberingConfig, assets: AssetsView) -> Seq<
    NodeView,
> {
    completed(markdown_nodes(chapter.content, chapter_options()), chapter.number, config, assets)
}

/// The text of a chapter once it has been worked on, or `None` where the
/// serializer rejects its nodes.
pub open spec fn rendered_text(chapter: ChapterView, config: NumberingConfig, assets: AssetsView) -> Option<
    Seq<char>,
> {
    markdown_text(rendered_nodes(chapter, config, assets))
}

/// The diagnostics that the headings of a chapter give.
pub open spec fn chapter_warnings(chapter: ChapterView, config: NumberingConfig) -> Seq<
    DiagnosticView,
> {
    transduce_warnings(
        markdown_nodes(chapter.content, chapter_options()),
        chapter.name,
        chapter.number,
        config.heading.numbering_style,
        config.heading.enable,
    )
}

/// Whether the configuration lets `katex` run before the headings are
/// numbered: `katex` is in use, and either this preprocessor is declared to
/// run after it or it is declared to run before this one.
pub open spec fn katex_runs_first(config: NumberingConfig, katex: Option<KatexOrdering>) -> bool {
    match katex {
        Some(katex) => config.after.katex || katex.before.numbering,
        None => false,
    }
}

impl NumberingPreprocessor {
    /// A new preprocessor.
    pub fn new() -> (preprocessor: Self) {
        NumberingPreprocessor { _private: () }
    }

    /// The name of the preprocessor, `numbering`.
    pub fn name(&self) -> (name: &'static str)
        ensures
            name@ == "numbering"@,
    {
        "numbering"
    }

    /// The option set with which chapters are read: tables, footnotes,
    /// strikethrough, task lists, heading attributes, math, the block quote
    /// kinds of GitHub's Markdown, superscript and subscript.
    pub fn parser_options() -> (options: u32)
        ensures
            options == chapter_options(),
            enables(options, ENABLE_TABLES),
            enables(options, ENABLE_FOOTNOTES),
            enables(options, ENABLE_STRIKETHROUGH),
            enables(options, ENABLE_TASKLISTS),
            enables(options, ENABLE_HEADING_ATTRIBUTES),
            enables(options, ENABLE_MATH),
            enables(options, ENABLE_GFM),
            enables(options, ENABLE_SUPERSCRIPT),
            enables(options, ENABLE_SUBSCRIPT),
            options == ENABLE_TABLES + ENABLE_FOOTNOTES + ENABLE_STRIKETHROUGH + ENABLE_TASKLISTS
                + ENABLE_HEADING_ATTRIBUTES + ENABLE_MATH + ENABLE_GFM + ENABLE_SUPERSCRIPT
                + ENABLE_SUBSCRIPT,
    {
        let options = ENABLE_TABLES | ENABLE_FOOTNOTES | ENABLE_STRIKETHROUGH | ENABLE_TASKLISTS
            | ENABLE_HEADING_ATTRIBUTES | ENABLE_MATH | ENABLE_GFM | ENABLE_SUPERSCRIPT
            | ENABLE_SUBSCRIPT;
        assert(options == 0x6c5e) by (bit_vector)
            requires
                options == 0x0002u32 | 0x0004u32 | 0x0008u32 | 0x0010u32 | 0x0040u32 | 0x0400u32
                    | 0x0800u32 | 0x2000u32 | 0x4000u32,
        ;
        assert(0x6c5eu32 & 0x0002u32 == 0x0002u32) by (bit_vector);
        assert(0x6c5eu32 & 0x0004u32 == 0x0004u32) by (bit_vector);
        assert(0x6c5eu32 & 0x0008u32 == 0x0008u32) by (bit_vector);
        assert(0x6c5eu32 & 0x0010u32 == 0x0010u32) by (bit_vector);
        assert(0x6c5eu32 & 0x0040u32 == 0x0040u32) by (bit_vector);
        assert(0x6c5eu32 & 0x0400u32 == 0x0400u32) by (bit_vector);
        assert(0x6c5eu32 & 0x0800u32 == 0x0800u32) by (bit_vector);
        assert(0x6c5eu32 & 0x2000u32 == 0x2000u32) by (bit_vector);
        assert(0x6c5eu32 & 0x4000u32 == 0x4000u32) by (bit_vector);
        options
    }

    /// Works on the nodes of one chapter: numbers the headings, appends the
    /// fragments and writes the result as text. The text and the diagnostics
    /// of the headings are returned.
    ///
    /// The only failure is the serializer's: it rejects nodes that no
    /// Markdown text gives.
    pub fn render_nodes(
        nodes: Vec<Node>,
        chapter: &str,
        number: Option<&Vec<u32>>,
        config: &NumberingConfig,
        assets: &Assets,
    ) -> (rendered: Result<(String, Vec<Diagnostic>), RenderError>)
        requires
            number matches Some(base) ==> base.len() + 6 <= usize::MAX,
        ensures
            match markdown_text(
                completed(nodes.deep_view(), base_of(number), *config, assets.deep_view()),
            ) {
                Some(text) => rendered matches Ok((content, found)) && content@ == text
                    && found.deep_view() == transduce_warnings(
                    nodes.deep_view(),
                    chapter@,
                    base_of(number),
                    config.heading.numbering_style,
                    config.heading.enable,
                ),
                None => rendered == Err::<(String, Vec<Diagnostic>), RenderError>(
                    RenderError::Serialization,
                ),
            },
    {
        let base_len = match number {
            Some(base) => Some(base.len()),
            None => None,
        };
        let (numbered, found) = transduce(
            nodes,
            chapter,
            number,
            config.heading.numbering_style,
            config.heading.enable,
        );
        let complete = inject(
            numbered,
            config.code.enable,
            config.heading.enable,
            config.heading.numbering_style,
            base_len,
            assets,
        );
        match serialize(complete) {
            Ok(content) => Ok((content, found)),
            Err(_) => Err(RenderError::Serialization),
        }
    }

    /// Works on one chapter: reads its text into nodes and hands them to
    /// [`Self::render_nodes`]. The chapter itself is left as it is; the new
    /// text and the diagnostics are returned.
    pub fn render_chapter(chapter: &Chapter, config: &NumberingConfig, assets: &Assets) -> (rendered:
        Result<(String, Vec<Diagnostic>), RenderError>)
        requires
            chapter.countable(),
        ensures
            match rendered_text(chapter.deep_view(), *config, assets.deep_view()) {
                Some(text) => rendered matches Ok((content, found)) && content@ == text
                    && found.deep_view() == chapter_warnings(chapter.deep_view(), *config),
                None => rendered == Err::<(String, Vec<Diagnostic>), RenderError>(
                    RenderError::Serialization,
                ),
            },
    {
        let nodes = tokenize(chapter.content.as_str(), Self::parser_options());
        let number = match &chapter.number {
            Some(number) => Some(number),
            None => None,
        };
        Self::render_nodes(nodes, chapter.name.as_str(), number, config, assets)
    }

    /// Works on one item of the book. A chapter that is no draft gets the
    /// text that [`Self::render_chapter`] makes of it; its diagnostics are
    /// returned. Every other item, and a chapter that could not be
    /// rendered, stays as it is.
    pub fn render_book_item(item: &mut BookItem, config: &NumberingConfig, assets: &Assets) -> (outcome:
        Result<Vec<Diagnostic>, RenderError>)
        requires
            old(item).countable(),
        ensures
            match *old(item) {
                BookItem::Chapter(chapter) if !chapter.is_draft => match rendered_text(
                    chapter.deep_view(),
                    *config,
                    assets.deep_view(),
                ) {
                    Some(text) => outcome matches Ok(found) && found.deep_view()
                        == chapter_warnings(chapter.deep_view(), *config) && final(item).deep_view()
                        == BookItemView::Chapter(
                        ChapterView { content: text, ..chapter.deep_view() },
                    ),
                    None => outcome == Err::<Vec<Diagnostic>, RenderError>(
                        RenderError::Serialization,
                    ) && *final(item) == *old(item),
                },
                _ => outcome matches Ok(found) && found@.len() == 0 && *final(item) == *old(item),
            },
    {
        match item {
            BookItem::Chapter(chapter) => {
                if chapter.is_draft {
                    return Ok(Vec::new());
                }
                match Self::render_chapter(chapter, config, assets) {
                    Ok((content, found)) => {
                        chapter.content = content;
                        Ok(found)
                    },
                    Err(error) => Err(error),
                }
            },
            _ => Ok(Vec::new()),
        }
    }

    /// Settles the configuration from the outcome of looking it up in the
    /// book's configuration: what was found where something was found, the
    /// default where nothing was, and the default together with the error
    /// that is to be reported where the lookup failed.
    pub fn get_config(lookup: Result<Option<NumberingConfig>, String>) -> (settled: (
        NumberingConfig,
        Option<String>,
    ))
        ensures
            match lookup {
                Ok(Some(config)) => settled.0 === config && settled.1 is None,
                Ok(None) => settled.0 === NumberingConfig::default_spec() && settled.1 is None,
                Err(error) => settled.0 === NumberingConfig::default_spec() && settled.1 == Some(
                    error,
                ),
            },
    {
        match lookup {
            Ok(Some(config)) => (config, None),
            Ok(None) => (NumberingConfig::default(), None),
            Err(error) => (NumberingConfig::default(), Some(error)),
        }
    }

    /// Checks the declared order of the preprocessors. `katex` is `None`
    /// where that preprocessor is not in use. One advisory is given where
    /// the configuration lets `katex` run before the headings are numbered;
    /// nothing is reordered.
    pub fn validate_config(config: &NumberingConfig, katex: Option<KatexOrdering>) -> (advisory:
        Option<Diagnostic>)
        ensures
            katex_runs_first(*config, katex) ==> advisory matches Some(Diagnostic::OrderingAdvisory),
            !katex_runs_first(*config, katex) ==> advisory is None,
    {
        match katex {
            Some(katex) => {
                if config.after.katex || katex.before.numbering {
                    Some(Diagnostic::OrderingAdvisory)
                } else {
                    None
                }
            },
            None => None,
        }
    }
}

impl Default for NumberingPreprocessor {
    fn default() -> (preprocessor: Self) {
        NumberingPreprocessor::new()
    }
}

} // verus!
