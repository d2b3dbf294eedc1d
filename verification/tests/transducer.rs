use mdbook_numbering::transducer::{label_node, transduce};
use mdbook_numbering::{Diagnostic, Heading, HeadingLevel, Node, NumberingStyle};
use pulldown_cmark::{CowStr, Event, Tag, TagEnd};

fn heading(level: HeadingLevel) -> Node {
    Node::HeadingStart(Heading {
        level,
        id: None,
        classes: vec![],
        attrs: vec![],
    })
}

fn labelled(level: HeadingLevel, label: &str) -> Vec<Node> {
    vec![
        Node::HeadingStart(Heading {
            level,
            id: None,
            classes: vec![],
            attrs: vec![("data-numbering".to_string(), Some(label.to_string()))],
        }),
        Node::InlineHtml(format!(
            "<span class=\"heading numbering\">{label} </span>"
        )),
    ]
}

fn text(text: &'static str) -> Node {
    Node::Other(Event::Text(CowStr::Borrowed(text)))
}

fn labels(nodes: &[Node]) -> Vec<String> {
    let mut labels = vec![];
    for node in nodes {
        if let Node::HeadingStart(heading) = node {
            for (key, value) in &heading.attrs {
                if key == "data-numbering" {
                    labels.push(value.clone().unwrap());
                }
            }
        }
    }
    labels
}

#[test]
fn single_top_heading_takes_the_chapter_number() {
    let (out, found) = transduce(
        vec![heading(HeadingLevel::H1)],
        "Chapter",
        Some(&vec![1]),
        NumberingStyle::Consecutive,
        true,
    );
    assert_eq!(out, labelled(HeadingLevel::H1, "1."));
    assert_eq!(found, vec![]);
}

#[test]
fn siblings_count_up_below_the_chapter() {
    let (out, found) = transduce(
        vec![
            heading(HeadingLevel::H1),
            heading(HeadingLevel::H2),
            heading(HeadingLevel::H2),
        ],
        "Chapter",
        Some(&vec![1]),
        NumberingStyle::Consecutive,
        true,
    );
    assert_eq!(labels(&out), vec!["1.", "1.1.", "1.2."]);
    assert_eq!(out.len(), 6);
    assert_eq!(found, vec![]);
}

#[test]
fn top_style_pins_level_one_to_the_chapter_depth() {
    let (out, found) = transduce(
        vec![
            heading(HeadingLevel::H1),
            heading(HeadingLevel::H2),
            heading(HeadingLevel::H2),
        ],
        "Chapter",
        Some(&vec![1, 2]),
        NumberingStyle::Top,
        true,
    );
    assert_eq!(labels(&out), vec!["1.2.", "1.2.1.", "1.2.2."]);
    assert_eq!(found, vec![]);
}

#[test]
fn skipped_level_is_numbered_and_reported() {
    let (out, found) = transduce(
        vec![heading(HeadingLevel::H1), heading(HeadingLevel::H3)],
        "Chapter 1",
        Some(&vec![1]),
        NumberingStyle::Consecutive,
        true,
    );
    assert_eq!(labels(&out), vec!["1.", "1.0.1."]);
    assert_eq!(
        found,
        vec![Diagnostic::LevelSkipped {
            level: HeadingLevel::H3,
            known_levels: 1,
            numbering: "1.".to_string(),
            chapter: "Chapter 1".to_string(),
        }]
    );
    assert_eq!(
        found[0].message(),
        "Heading level h3 found, but only 1 levels in numbering \"1.\" for chapter \"Chapter 1\"."
    );
}

#[test]
fn heading_above_the_chapter_is_reported_under_consecutive() {
    let (out, found) = transduce(
        vec![heading(HeadingLevel::H1), heading(HeadingLevel::H3)],
        "Deep",
        Some(&vec![4, 5, 6]),
        NumberingStyle::Consecutive,
        true,
    );
    assert_eq!(labels(&out), vec!["4.", "4.0.0."]);
    assert_eq!(
        found,
        vec![
            Diagnostic::AboveChapter {
                level: HeadingLevel::H1,
                numbering: "4.5.6.".to_string(),
                chapter: "Deep".to_string(),
            },
            Diagnostic::LevelSkipped {
                level: HeadingLevel::H3,
                known_levels: 1,
                numbering: "4.".to_string(),
                chapter: "Deep".to_string(),
            },
        ]
    );
    assert_eq!(
        found[0].message(),
        "Heading level h1 found, but numbering \"4.5.6.\" for chapter \"Deep\" has more levels. \
         Consider using `numbering-style = \"top\"` in the config, \
         if you want the top heading to be level 1."
    );
}

#[test]
fn deeper_counters_are_dropped_when_a_shallower_heading_follows() {
    let (out, _) = transduce(
        vec![
            heading(HeadingLevel::H1),
            heading(HeadingLevel::H2),
            heading(HeadingLevel::H3),
            heading(HeadingLevel::H3),
            heading(HeadingLevel::H2),
            heading(HeadingLevel::H3),
        ],
        "Chapter",
        Some(&vec![7]),
        NumberingStyle::Consecutive,
        true,
    );
    assert_eq!(
        labels(&out),
        vec!["7.", "7.1.", "7.1.1.", "7.1.2.", "7.2.", "7.2.1."]
    );
}

#[test]
fn other_nodes_pass_through_in_place() {
    let (out, found) = transduce(
        vec![
            text("before"),
            heading(HeadingLevel::H2),
            text("title"),
            Node::Other(Event::End(TagEnd::Heading(pulldown_cmark::HeadingLevel::H2))),
            Node::InlineHtml("<b>".to_string()),
            Node::Other(Event::Start(Tag::Paragraph)),
        ],
        "Chapter",
        Some(&vec![1, 2]),
        NumberingStyle::Consecutive,
        true,
    );
    let mut expected = vec![text("before")];
    expected.extend(labelled(HeadingLevel::H2, "1.2."));
    expected.push(text("title"));
    expected.push(Node::Other(Event::End(TagEnd::Heading(
        pulldown_cmark::HeadingLevel::H2,
    ))));
    expected.push(Node::InlineHtml("<b>".to_string()));
    expected.push(Node::Other(Event::Start(Tag::Paragraph)));
    assert_eq!(out, expected);
    assert_eq!(found, vec![]);
}

#[test]
fn existing_attributes_are_kept_in_front_of_the_label() {
    let (out, _) = transduce(
        vec![Node::HeadingStart(Heading {
            level: HeadingLevel::H1,
            id: Some("intro".to_string()),
            classes: vec!["wide".to_string()],
            attrs: vec![("lang".to_string(), None)],
        })],
        "Chapter",
        Some(&vec![2]),
        NumberingStyle::Top,
        true,
    );
    assert_eq!(
        out[0],
        Node::HeadingStart(Heading {
            level: HeadingLevel::H1,
            id: Some("intro".to_string()),
            classes: vec!["wide".to_string()],
            attrs: vec![
                ("lang".to_string(), None),
                ("data-numbering".to_string(), Some("2.".to_string())),
            ],
        })
    );
    assert_eq!(out[1], label_node("2."));
}

#[test]
fn disabled_numbering_returns_the_nodes_unchanged() {
    let (out, found) = transduce(
        vec![heading(HeadingLevel::H1), text("a"), heading(HeadingLevel::H4)],
        "Chapter",
        Some(&vec![1]),
        NumberingStyle::Consecutive,
        false,
    );
    assert_eq!(
        out,
        vec![heading(HeadingLevel::H1), text("a"), heading(HeadingLevel::H4)]
    );
    assert_eq!(found, vec![]);
}

#[test]
fn unnumbered_chapter_returns_the_nodes_unchanged() {
    let (out, found) = transduce(
        vec![heading(HeadingLevel::H1), text("a"), heading(HeadingLevel::H4)],
        "Chapter",
        None,
        NumberingStyle::Top,
        true,
    );
    assert_eq!(
        out,
        vec![heading(HeadingLevel::H1), text("a"), heading(HeadingLevel::H4)]
    );
    assert_eq!(found, vec![]);
}

#[test]
fn numbering_twice_doubles_the_labels() {
    let (once, _) = transduce(
        vec![heading(HeadingLevel::H1), text("a"), heading(HeadingLevel::H2)],
        "Chapter",
        Some(&vec![3]),
        NumberingStyle::Consecutive,
        true,
    );
    let (twice, _) = transduce(once, "Chapter", Some(&vec![3]), NumberingStyle::Consecutive, true);
    assert_eq!(labels(&twice), vec!["3.", "3.", "3.1.", "3.1."]);
    assert_eq!(
        twice,
        vec![
            Node::HeadingStart(Heading {
                level: HeadingLevel::H1,
                id: None,
                classes: vec![],
                attrs: vec![
                    ("data-numbering".to_string(), Some("3.".to_string())),
                    ("data-numbering".to_string(), Some("3.".to_string())),
                ],
            }),
            label_node("3."),
            label_node("3."),
            text("a"),
            Node::HeadingStart(Heading {
                level: HeadingLevel::H2,
                id: None,
                classes: vec![],
                attrs: vec![
                    ("data-numbering".to_string(), Some("3.1.".to_string())),
                    ("data-numbering".to_string(), Some("3.1.".to_string())),
                ],
            }),
            label_node("3.1."),
            label_node("3.1."),
        ]
    );
}

#[test]
fn empty_chapter_number_under_top_gives_the_zero_label() {
    let (out, found) = transduce(
        vec![heading(HeadingLevel::H1), heading(HeadingLevel::H2)],
        "Chapter",
        Some(&vec![]),
        NumberingStyle::Top,
        true,
    );
    assert_eq!(labels(&out), vec!["0", "1."]);
    assert_eq!(found, vec![]);
}

#[test]
fn label_node_wraps_the_label_in_a_span() {
    assert_eq!(
        label_node("1.2.3."),
        Node::InlineHtml("<span class=\"heading numbering\">1.2.3. </span>".to_string())
    );
}
