//! The presentation fragments that are appended to a chapter.

use vstd::prelude::*;
use vstd::string::*;
use crate::config::NumberingStyle;
use crate::node::{Node, NodeView};

verus! {

/// The style fragment that keeps heading labels out of text selections.
pub open spec fn heading_style() -> Seq<char> {
    "<style>"@
        + "span.heading.numbering{user-select:none;-webkit-user-select:none;cursor:default}\n"@
        + "</style>\n"@
}

/// The style fragment that, in print, hides every heading without a
/// numbering attribute.
pub open spec fn print_hide_style() -> Seq<char> {
    "<style>"@
        + "@media print{h1:not([data-numbering]),h2:not([data-numbering]),h3:not([data-numbering]),h4:not([data-numbering]),h5:not([data-numbering]),h6:not([data-numbering]){display:none}}\n"@
        + "</style>\n"@
}

/// The script fragment that runs `script` once the page has been loaded.
pub open spec fn code_script(script: Seq<char>) -> Seq<char> {
    "<script defer>\nwindow.addEventListener('DOMContentLoaded', function() { "@ + script
        + " });\n</script>\n"@
}

/// The style fragment that holds the style sheet `style`.
pub open spec fn code_style(style: Seq<char>) -> Seq<char> {
    "<style>\n"@ + style + "\n</style>\n"@
}

/// The fragments of one run. They are made once and only read afterwards.
#[derive(Debug, Clone, PartialEq, Eq)]
pub struct Assets {
    /// The style of heading labels.
    pub heading_style: String,
    /// The style that hides headings without a numbering attribute in print.
    pub print_hide_style: String,
    /// The script that numbers the lines of code blocks.
    pub code_script: String,
    /// The style of the line numbers of code blocks.
    pub code_style: String,
}

/// What [`Assets`] hold, as mathematical values.
pub struct AssetsView {
    pub heading_style: Seq<char>,
    pub print_hide_style: Seq<char>,
    pub code_script: Seq<char>,
    pub code_style: Seq<char>,
}

impl DeepView for Assets {
    type V = AssetsView;

    open spec fn deep_view(&self) -> AssetsView {
        AssetsView {
            heading_style: self.heading_style@,
            print_hide_style: self.print_hide_style@,
            code_script: self.code_script@,
            code_style: self.code_style@,
        }
    }
}

impl Assets {
    /// The fragments of a run whose line numbering is done by the script
    /// `script` and styled by the style sheet `style`.
    pub fn new(script: &str, style: &str) -> (assets: Assets)
        ensures
            assets.deep_view() == (AssetsView {
                heading_style: heading_style(),
                print_hide_style: print_hide_style(),
                code_script: code_script(script@),
                code_style: code_style(style@),
            }),
    {
        let mut heading = String::from_str("<style>");
        heading.append(
            "span.heading.numbering{user-select:none;-webkit-user-select:none;cursor:default}\n",
        );
        heading.append("</style>\n");
        let mut print_hide = String::from_str("<style>");
        print_hide.append(
            "@media print{h1:not([data-numbering]),h2:not([data-numbering]),h3:not([data-numbering]),h4:not([data-numbering]),h5:not([data-numbering]),h6:not([data-numbering]){display:none}}\n",
        );
        print_hide.append("</style>\n");
        let mut code_script = String::from_str(
            "<script defer>\nwindow.addEventListener('DOMContentLoaded', function() { ",
        );
        code_script.append(script);
        code_script.append(" });\n</script>\n");
        let mut code_style = String::from_str("<style>\n");
        code_style.append(style);
        code_style.append("\n</style>\n");
        Assets {
            heading_style: heading,
            print_hide_style: print_hide,
            code_script,
            code_style,
        }
    }
}

/// Whether the chapter's headings carry labels: heading numbering is on and
/// the chapter has a number.
pub open spec fn labels_injected(heading_enabled: bool, base_number_len: Option<nat>) -> bool {
    heading_enabled && base_number_len is Some
}

/// Whether the print rules are called for: labels are injected in the
/// `Consecutive` style into a chapter that lies below the top level.
pub open spec fn hides_in_print(
    heading_enabled: bool,
    style: NumberingStyle,
    base_number_len: Option<nat>,
) -> bool {
    heading_enabled && style == NumberingStyle::Consecutive && match base_number_len {
        Some(len) => len > 1,
        None => false,
    }
}

/// The nodes that are appended to a chapter: the style of the labels where
/// labels are injected, the print rules where they are called for, then the
/// script and the style of code line numbers where those are switched on.
pub open spec fn tail(
    assets: AssetsView,
    code_enabled: bool,
    heading_enabled: bool,
    style: NumberingStyle,
    base_number_len: Option<nat>,
) -> Seq<NodeView> {
    (if labels_injected(heading_enabled, base_number_len) {
        seq![NodeView::InlineHtml(assets.heading_style)]
    } else {
        Seq::empty()
    }) + (if hides_in_print(heading_enabled, style, base_number_len) {
        seq![NodeView::InlineHtml(assets.print_hide_style)]
    } else {
        Seq::empty()
    }) + (if code_enabled {
        seq![NodeView::InlineHtml(assets.code_script), NodeView::InlineHtml(assets.code_style)]
    } else {
        Seq::empty()
    })
}

/// The length of a chapter number, where there is one.
pub open spec fn len_of(base_number_len: Option<usize>) -> Option<nat> {
    match base_number_len {
        Some(len) => Some(len as nat),
        None => None,
    }
}

/// Appends the fragments that the configuration calls for to the tail of
/// `nodes`. Nothing is put between the nodes that are there.
pub fn inject(
    nodes: Vec<Node>,
    code_enabled: bool,
    heading_enabled: bool,
    style: NumberingStyle,
    base_number_len: Option<usize>,
    assets: &Assets,
) -> (out: Vec<Node>)
    ensures
        out.deep_view() == nodes.deep_view() + tail(
            assets.deep_view(),
            code_enabled,
            heading_enabled,
            style,
            len_of(base_number_len),
        ),
        !code_enabled && !heading_enabled ==> out == nodes,
{
    let mut out = nodes;
    if heading_enabled {
        if let Some(len) = base_number_len {
            out.push(Node::InlineHtml(assets.heading_style.clone()));
            let nested = match style {
                NumberingStyle::Consecutive => len > 1,
                NumberingStyle::Top => false,
            };
            if nested {
                    out.push(Node::InlineHtml(assets.print_hide_style.clone()));
            }
        }
    }
    if code_enabled {
        out.push(Node::InlineHtml(assets.code_script.clone()));
        out.push(Node::InlineHtml(assets.code_style.clone()));
    }
    out
}

} // verus!
