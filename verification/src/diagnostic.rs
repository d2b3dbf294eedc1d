//! Diagnostics: irregularities that are reported and never stop the work.

use vstd::prelude::*;
use vstd::string::*;
use crate::label::{decimal, push_decimal};
use crate::level::HeadingLevel;

verus! {

/// An irregularity found while a book is numbered. None of them is fatal.
#[derive(Debug, Clone, PartialEq, Eq)]
pub enum Diagnostic {
    /// A heading lies more than one level below the numbering that was
    /// current when it was met.
    LevelSkipped {
        /// The literal level of the heading.
        level: HeadingLevel,
        /// The number of levels that the numbering had.
        known_levels: usize,
        /// The label of the numbering.
        numbering: String,
        /// The name of the chapter.
        chapter: String,
    },
    /// Under the `Consecutive` style, a heading lies above the chapter's own
    /// depth.
    AboveChapter {
        /// The literal level of the heading.
        level: HeadingLevel,
        /// The label of the numbering that was current.
        numbering: String,
        /// The name of the chapter.
        chapter: String,
    },
    /// The book's configuration lets `katex` run before the headings are
    /// numbered.
    OrderingAdvisory,
}

/// What a [`Diagnostic`] holds, as mathematical values.
pub enum DiagnosticView {
    LevelSkipped { level: HeadingLevel, known_levels: nat, numbering: Seq<char>, chapter: Seq<char> },
    AboveChapter { level: HeadingLevel, numbering: Seq<char>, chapter: Seq<char> },
    OrderingAdvisory,
}

impl DeepView for Diagnostic {
    type V = DiagnosticView;

    open spec fn deep_view(&self) -> DiagnosticView {
        match self {
            Diagnostic::LevelSkipped { level, known_levels, numbering, chapter } => {
                DiagnosticView::LevelSkipped {
                    level: *level,
                    known_levels: *known_levels as nat,
                    numbering: numbering@,
                    chapter: chapter@,
                }
            },
            Diagnostic::AboveChapter { level, numbering, chapter } => {
                DiagnosticView::AboveChapter {
                    level: *level,
                    numbering: numbering@,
                    chapter: chapter@,
                }
            },
            Diagnostic::OrderingAdvisory => DiagnosticView::OrderingAdvisory,
        }
    }
}

impl DiagnosticView {
    /// The message of the diagnostic, as a reader is shown it.
    pub open spec fn message(self) -> Seq<char> {
        match self {
            DiagnosticView::LevelSkipped { level, known_levels, numbering, chapter } => {
                "Heading level "@ + level.spec_name() + " found, but only "@ + decimal(known_levels)
                    + " levels in numbering \""@ + numbering + "\" for chapter \""@ + chapter
                    + "\"."@
            },
            DiagnosticView::AboveChapter { level, numbering, chapter } => {
                "Heading level "@ + level.spec_name() + " found, but numbering \""@ + numbering
                    + "\" for chapter \""@ + chapter
                    + "\" has more levels. Consider using `numbering-style = \"top\"` in the config, if you want the top heading to be level 1."@
            },
            DiagnosticView::OrderingAdvisory => {
                "`katex` is set to run before `numbering`. Formulas are only sure to stay intact when the headings are numbered first: consider `before = [\"katex\"]` for `numbering` in the config."@
            },
        }
    }
}

impl Diagnostic {
    /// The message of the diagnostic, as a reader is shown it.
    pub fn message(&self) -> (text: String)
        ensures
            text@ == self.deep_view().message(),
    {
        match self {
            Diagnostic::LevelSkipped { level, known_levels, numbering, chapter } => {
                let mut text = String::from_str("Heading level ");
                text.append(level.name());
                text.append(" found, but only ");
                push_decimal(&mut text, *known_levels as u64);
                text.append(" levels in numbering \"");
                text.append(numbering.as_str());
                text.append("\" for chapter \"");
                text.append(chapter.as_str());
                text.append("\".");
                text
            },
            Diagnostic::AboveChapter { level, numbering, chapter } => {
                let mut text = String::from_str("Heading level ");
                text.append(level.name());
                text.append(" found, but numbering \"");
                text.append(numbering.as_str());
                text.append("\" for chapter \"");
                text.append(chapter.as_str());
                text.append(
                    "\" has more levels. Consider using `numbering-style = \"top\"` in the config, if you want the top heading to be level 1.",
                );
                text
            },
            Diagnostic::OrderingAdvisory => {
                String::from_str(
                    "`katex` is set to run before `numbering`. Formulas are only sure to stay intact when the headings are numbered first: consider `before = [\"katex\"]` for `numbering` in the config.",
                )
            },
        }
    }
}

} // verus!
