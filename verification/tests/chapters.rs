use mdbook_numbering::{
    Assets, BookItem, Chapter, CodeConfig, HeadingConfig, NumberingConfig, NumberingPreprocessor,
    NumberingStyle,
};

fn render(item: &mut BookItem, config: &NumberingConfig) {
    let assets = Assets::new("", "");
    let found = NumberingPreprocessor::render_book_item(item, config, &assets).unwrap();
    for diagnostic in found {
        panic!("{}", diagnostic.message());
    }
}

fn chapter(name: &str, content: &str, number: Vec<u32>, is_draft: bool) -> Chapter {
    Chapter {
        name: name.to_string(),
        content: content.to_string(),
        number: Some(number),
        is_draft,
    }
}

fn assert_chapter_eq(left: &BookItem, right: &Chapter) {
    match left {
        BookItem::Chapter(left) => {
            assert_eq!(left.name, right.name);
            assert_eq!(left.content, right.content);
            assert_eq!(left.number, right.number);
            assert_eq!(left.is_draft, right.is_draft);
        }
        _ => panic!("Mismatched BookItem variants"),
    }
}

#[test]
fn chapters_empty() {
    let mut item = BookItem::Chapter(chapter("Empty Chapter", "", vec![1, 2], true));

    render(
        &mut item,
        &NumberingConfig {
            code: CodeConfig { enable: false },
            heading: HeadingConfig {
                enable: true,
                numbering_style: NumberingStyle::Consecutive,
            },
            ..Default::default()
        },
    );

    assert_eq!(
        item,
        BookItem::Chapter(chapter("Empty Chapter", "", vec![1, 2], true)),
    );
}

#[test]
fn complex_title() {
    let mut item = BookItem::Chapter(chapter(
        "Complex Title",
        "# Complex Title with Inline Code `let x = 10;` and Inline Formulas $E=mc^2$",
        vec![1, 2],
        true,
    ));

    render(
        &mut item,
        &NumberingConfig {
            code: CodeConfig { enable: false },
            ..Default::default()
        },
    );

    assert_chapter_eq(
        &item,
        &chapter(
            "Complex Title",
            "# Complex Title with Inline Code `let x = 10;` and Inline Formulas $E=mc^2$",
            vec![1, 2],
            true,
        ),
    );
}

#[test]
fn disabled() {
    let untouched = chapter(
        "Empty Chapter",
        "# abc\n\n$ abc $\n\n$$\n    E = mc^2\n$$",
        vec![1],
        true,
    );
    let mut item = BookItem::Chapter(untouched.clone());

    render(
        &mut item,
        &NumberingConfig {
            code: CodeConfig { enable: false },
            heading: HeadingConfig {
                enable: false,
                numbering_style: NumberingStyle::Consecutive,
            },
            ..Default::default()
        },
    );

    assert_chapter_eq(&item, &untouched);
}

#[test]
fn draft() {
    let mut item = BookItem::Chapter(chapter(
        "Chapter 1",
        "# Heading 1\n\nSome content.",
        vec![1],
        true,
    ));

    render(
        &mut item,
        &NumberingConfig {
            code: CodeConfig { enable: false },
            heading: HeadingConfig {
                enable: true,
                numbering_style: NumberingStyle::Consecutive,
            },
            ..Default::default()
        },
    );

    assert_chapter_eq(
        &item,
        &chapter("Chapter 1", "# Heading 1\n\nSome content.", vec![1], true),
    );
}

#[test]
fn level_1() {
    let mut item = BookItem::Chapter(chapter(
        "Chapter 1",
        "\
# Heading 1

Some content.",
        vec![1],
        false,
    ));

    render(
        &mut item,
        &NumberingConfig {
            code: CodeConfig { enable: false },
            heading: HeadingConfig {
                enable: true,
                numbering_style: NumberingStyle::Consecutive,
            },
            ..Default::default()
        },
    );

    assert_chapter_eq(
        &item,
        &chapter(
            "Chapter 1",
            r#"# <span class="heading numbering">1. </span>Heading 1 { data-numbering=1. }

Some content.

<style>span.heading.numbering{user-select:none;-webkit-user-select:none;cursor:default}
</style>
"#,
            vec![1],
            false,
        ),
    );
}

#[test]
fn level_2() {
    let mut item = BookItem::Chapter(chapter(
        "Chapter 1",
        "\
# Heading 1

## Heading 2

Some content.

## Heading 3

More content.
",
        vec![1],
        false,
    ));

    render(
        &mut item,
        &NumberingConfig {
            code: CodeConfig { enable: false },
            heading: HeadingConfig {
                enable: true,
                numbering_style: NumberingStyle::Consecutive,
            },
            ..Default::default()
        },
    );

    assert_chapter_eq(
        &item,
        &chapter(
            "Chapter 1",
            r#"# <span class="heading numbering">1. </span>Heading 1 { data-numbering=1. }

## <span class="heading numbering">1.1. </span>Heading 2 { data-numbering=1.1. }

Some content.

## <span class="heading numbering">1.2. </span>Heading 3 { data-numbering=1.2. }

More content.

<style>span.heading.numbering{user-select:none;-webkit-user-select:none;cursor:default}
</style>
"#,
            vec![1],
            false,
        ),
    );
}

#[test]
fn level_2_consecutive() {
    let mut item = BookItem::Chapter(chapter(
        "Chapter 1",
        "## Heading 1

### Heading 2

Some content.

### Heading 3

More content.
",
        vec![1, 2],
        false,
    ));

    render(
        &mut item,
        &NumberingConfig {
            code: CodeConfig { enable: false },
            heading: HeadingConfig {
                enable: true,
                numbering_style: NumberingStyle::Consecutive,
            },
            ..Default::default()
        },
    );

    assert_chapter_eq(
        &item,
        &chapter(
            "Chapter 1",
            "## <span class=\"heading numbering\">1.2. </span>Heading 1 { data-numbering=1.2. }

### <span class=\"heading numbering\">1.2.1. </span>Heading 2 { data-numbering=1.2.1. }

Some content.

### <span class=\"heading numbering\">1.2.2. </span>Heading 3 { data-numbering=1.2.2. }

More content.

<style>span.heading.numbering{user-select:none;-webkit-user-select:none;cursor:default}
</style>
<style>\
    @media print{\
        h1:not([data-numbering]),\
        h2:not([data-numbering]),\
        h3:not([data-numbering]),\
        h4:not([data-numbering]),\
        h5:not([data-numbering]),\
        h6:not([data-numbering]){\
            display:none\
        }\
    }
</style>
",
            vec![1, 2],
            false,
        ),
    );
}

#[test]
fn level_2_top() {
    let mut item = BookItem::Chapter(chapter(
        "Chapter 1",
        "\
# Heading 1

## Heading 2

Some content.

## Heading 3

More content.
",
        vec![1, 2],
        false,
    ));

    render(
        &mut item,
        &NumberingConfig {
            code: CodeConfig { enable: false },
            heading: HeadingConfig {
                enable: true,
                numbering_style: NumberingStyle::Top,
            },
            ..Default::default()
        },
    );

    assert_chapter_eq(
        &item,
        &chapter(
            "Chapter 1",
            r#"# <span class="heading numbering">1.2. </span>Heading 1 { data-numbering=1.2. }

## <span class="heading numbering">1.2.1. </span>Heading 2 { data-numbering=1.2.1. }

Some content.

## <span class="heading numbering">1.2.2. </span>Heading 3 { data-numbering=1.2.2. }

More content.

<style>span.heading.numbering{user-select:none;-webkit-user-select:none;cursor:default}
</style>
"#,
            vec![1, 2],
            false,
        ),
    );
}

#[test]
#[should_panic(
    expected = "Heading level h3 found, but only 1 levels in numbering \"1.\" for chapter \"Chapter 1\"."
)]
fn inconsecutive() {
    let mut item = BookItem::Chapter(chapter(
        "Chapter 1",
        "\
# Heading 1

### Heading 2

Some content.",
        vec![1],
        false,
    ));

    render(
        &mut item,
        &NumberingConfig {
            code: CodeConfig { enable: false },
            heading: HeadingConfig {
                enable: true,
                numbering_style: NumberingStyle::Consecutive,
            },
            ..Default::default()
        },
    );
}
