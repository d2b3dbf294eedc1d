use mdbook_numbering::label::{label, push_decimal};
use mdbook_numbering::stack::NumberStack;
use mdbook_numbering::{HeadingLevel, NumberingStyle};

#[test]
fn label_joins_the_numbers_with_trailing_dots() {
    assert_eq!(label(&vec![1, 2, 3]), "1.2.3.");
    assert_eq!(label(&vec![1]), "1.");
    assert_eq!(label(&vec![10, 0, 207]), "10.0.207.");
}

#[test]
fn label_of_no_numbers_is_zero() {
    assert_eq!(label(&vec![]), "0");
}

#[test]
fn decimal_rendering_has_no_leading_zeros() {
    let mut text = String::from("n=");
    push_decimal(&mut text, 0);
    push_decimal(&mut text, 9);
    push_decimal(&mut text, 10);
    push_decimal(&mut text, 4_294_967_295);
    push_decimal(&mut text, u64::MAX);
    assert_eq!(text, "n=0910429496729518446744073709551615");
}

#[test]
fn label_matches_the_section_number_of_the_book() {
    for numbers in [vec![], vec![1], vec![1, 2, 3], vec![12, 0, 4_000_000_000]] {
        let wide: Vec<u64> = numbers.iter().map(|n| u64::from(*n)).collect();
        assert_eq!(
            label(&wide),
            mdbook_preprocessor::book::SectionNumber::new(numbers).to_string()
        );
    }
}

#[test]
fn stack_is_seeded_with_the_chapter_number() {
    let stack = NumberStack::new(&vec![4, 2]);
    assert_eq!(stack.len(), 2);
    assert_eq!(stack.label(), "4.2.");
}

#[test]
fn depth_follows_the_style() {
    let stack = NumberStack::new(&vec![4, 2, 9]);
    assert_eq!(stack.depth_of(NumberingStyle::Consecutive, HeadingLevel::H1), 1);
    assert_eq!(stack.depth_of(NumberingStyle::Consecutive, HeadingLevel::H6), 6);
    assert_eq!(stack.depth_of(NumberingStyle::Top, HeadingLevel::H1), 3);
    assert_eq!(stack.depth_of(NumberingStyle::Top, HeadingLevel::H4), 6);
    assert!(stack.is_above_chapter(NumberingStyle::Consecutive, 2));
    assert!(!stack.is_above_chapter(NumberingStyle::Consecutive, 3));
    assert!(!stack.is_above_chapter(NumberingStyle::Top, 2));
}

#[test]
fn entering_grows_cuts_and_counts() {
    let mut stack = NumberStack::new(&vec![1]);
    stack.enter(1);
    assert_eq!(stack.label(), "1.");
    stack.enter(3);
    assert_eq!(stack.label(), "1.0.1.");
    stack.enter(3);
    assert_eq!(stack.label(), "1.0.2.");
    stack.enter(2);
    assert_eq!(stack.label(), "1.1.");
    stack.enter(2);
    assert_eq!(stack.label(), "1.2.");
    stack.enter(1);
    assert_eq!(stack.label(), "1.");
    assert_eq!(stack.len(), 1);
    stack.enter(0);
    assert_eq!(stack.label(), "0");
}

#[test]
fn levels_have_depths_and_names() {
    let levels = [
        (HeadingLevel::H1, pulldown_cmark::HeadingLevel::H1),
        (HeadingLevel::H2, pulldown_cmark::HeadingLevel::H2),
        (HeadingLevel::H3, pulldown_cmark::HeadingLevel::H3),
        (HeadingLevel::H4, pulldown_cmark::HeadingLevel::H4),
        (HeadingLevel::H5, pulldown_cmark::HeadingLevel::H5),
        (HeadingLevel::H6, pulldown_cmark::HeadingLevel::H6),
    ];
    for (depth, (level, outside)) in levels.into_iter().enumerate() {
        assert_eq!(level.depth(), depth + 1);
        assert_eq!(level.depth(), outside as usize);
        assert_eq!(level.name(), outside.to_string());
        assert_eq!(HeadingLevel::from_depth(depth + 1), level);
    }
    assert_eq!(HeadingLevel::from_depth(0), HeadingLevel::H1);
    assert_eq!(HeadingLevel::from_depth(7), HeadingLevel::H6);
}
