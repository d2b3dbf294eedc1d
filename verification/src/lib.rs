//! Hierarchical numbering for the headings of a book's chapters, and line
//! numbers for its code blocks.
//!
//! A chapter's Markdown is read into a stream of nodes ([`markdown`],
//! [`node`]). The transducer ([`transducer`]) runs once over the stream with
//! a stack of counters ([`stack`]) that is seeded with the chapter's own
//! number, and gives every heading its dotted label ([`label`]): as an
//! attribute of the heading and as visible markup right behind its start.
//! Fragments that style the labels and number the lines of code blocks
//! ([`assets`]) are appended at the tail, and the stream is written back as
//! Markdown. [`preprocessor`] does this for each item of a book ([`book`]) as
//! the configuration ([`config`]) says; irregular headings are reported as
//! diagnostics ([`diagnostic`]) and never stop the work. What holds of the
//! numbering as a whole is stated and proved in [`laws`].

pub mod assets;
pub mod book;
pub mod config;
pub mod diagnostic;
pub mod label;
pub mod laws;
pub mod level;
pub mod markdown;
pub mod node;
pub mod preprocessor;
pub mod stack;
pub mod transducer;

pub use assets::Assets;
pub use book::{BookItem, Chapter};
pub use config::{CodeConfig, HeadingConfig, NumberingConfig, NumberingStyle, Preprocessors};
pub use diagnostic::Diagnostic;
pub use level::HeadingLevel;
pub use node::{Heading, Node};
pub use preprocessor::{KatexOrdering, NumberingPreprocessor, RenderError};
pub use stack::NumberStack;
