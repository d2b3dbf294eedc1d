//! The configuration of the numbering.

use vstd::prelude::*;
use vstd::std_specs::cmp::PartialEqSpecImpl;
use vstd::string::*;

verus! {

/// How the literal level of a heading is mapped to its depth in the numbering.
#[derive(Debug, Clone, Copy, PartialEq, Eq, Structural)]
pub enum NumberingStyle {
    /// The level of a heading is its depth: in a chapter numbered `1.2.3` the
    /// chapter's own heading is expected at level 3.
    Consecutive,
    /// The chapter's own heading is expected at level 1, whatever the
    /// chapter's number: level 1 has the depth of the chapter's number.
    Top,
}

impl NumberingStyle {
    /// The default style, `Consecutive`.
    pub fn new() -> (style: Self)
        ensures
            style == NumberingStyle::Consecutive,
    {
        NumberingStyle::Consecutive
    }
}

impl Default for NumberingStyle {
    fn default() -> (style: Self)
        ensures
            style == NumberingStyle::Consecutive,
    {
        NumberingStyle::new()
    }
}

/// The configuration of heading numbering.
#[derive(Debug, Clone, Copy, PartialEq, Eq, Structural)]
pub struct HeadingConfig {
    /// Whether headings are numbered.
    pub enable: bool,
    /// How heading levels are mapped to depths.
    pub numbering_style: NumberingStyle,
}

impl HeadingConfig {
    /// The default: numbering is on, in the `Consecutive` style.
    pub fn new() -> (config: Self)
        ensures
            config == (HeadingConfig { enable: true, numbering_style: NumberingStyle::Consecutive }),
    {
        HeadingConfig { enable: true, numbering_style: NumberingStyle::new() }
    }
}

impl Default for HeadingConfig {
    fn default() -> (config: Self)
        ensures
            config == (HeadingConfig { enable: true, numbering_style: NumberingStyle::Consecutive }),
    {
        HeadingConfig::new()
    }
}

/// The configuration of line numbering in code blocks.
#[derive(Debug, Clone, Copy, PartialEq, Eq, Structural)]
pub struct CodeConfig {
    /// Whether the lines of code blocks are numbered.
    pub enable: bool,
}

impl CodeConfig {
    /// The default: line numbering is on.
    pub fn new() -> (config: Self)
        ensures
            config == (CodeConfig { enable: true }),
    {
        CodeConfig { enable: true }
    }
}

impl Default for CodeConfig {
    fn default() -> (config: Self)
        ensures
            config == (CodeConfig { enable: true }),
    {
        CodeConfig::new()
    }
}

/// The preprocessors of interest that an ordering list names.
#[derive(Debug, Clone, Copy, PartialEq, Eq, Structural)]
pub struct Preprocessors {
    /// Whether the list names `katex`.
    pub katex: bool,
    /// Whether the list names `numbering`.
    pub numbering: bool,
}

impl Preprocessors {
    /// The names of interest that `self` lists, `katex` before `numbering`.
    pub open spec fn spec_names(self) -> Seq<Seq<char>> {
        (if self.katex {
            seq!["katex"@]
        } else {
            Seq::empty()
        }) + (if self.numbering {
            seq!["numbering"@]
        } else {
            Seq::empty()
        })
    }

    /// Whether some entry of `names` reads `name`.
    pub open spec fn lists(names: Seq<Seq<char>>, name: Seq<char>) -> bool {
        exists|i: int| 0 <= i < names.len() && names[i] == name
    }

    /// The empty list: neither preprocessor is named.
    pub fn new() -> (list: Self)
        ensures
            list == (Preprocessors { katex: false, numbering: false }),
    {
        Preprocessors { katex: false, numbering: false }
    }

    /// The names of interest that the list holds, `katex` before `numbering`.
    pub fn names(&self) -> (names: Vec<&'static str>)
        ensures
            names.deep_view() == self.spec_names(),
    {
        let mut names: Vec<&'static str> = Vec::new();
        if self.katex {
            names.push("katex");
        }
        if self.numbering {
            names.push("numbering");
        }
        names
    }

    /// Reads a list of names: `katex` and `numbering` are noted, any other
    /// name is passed over.
    pub fn from_names(names: &Vec<String>) -> (list: Self)
        ensures
            list.katex == Self::lists(names.deep_view(), "katex"@),
            list.numbering == Self::lists(names.deep_view(), "numbering"@),
    {
        let katex = String::from_str("katex");
        let numbering = String::from_str("numbering");
        let mut list = Preprocessors::new();
        let mut i: usize = 0;
        while i < names.len()
            invariant
                i <= names.len(),
                katex@ == "katex"@,
                numbering@ == "numbering"@,
                list.katex == Self::lists(names.deep_view().take(i as int), "katex"@),
                list.numbering == Self::lists(names.deep_view().take(i as int), "numbering"@),
            decreases names.len() - i,
        {
            proof {
                Self::lemma_lists_one_more(names.deep_view(), i as int, "katex"@);
                Self::lemma_lists_one_more(names.deep_view(), i as int, "numbering"@);
            }
            if names[i] == katex {
                list.katex = true;
            }
            if names[i] == numbering {
                list.numbering = true;
            }
            i = i + 1;
        }
        assert(names.deep_view().take(i as int) =~= names.deep_view());
        list
    }

    /// A list one entry longer names `name` where the shorter list does or
    /// the new entry reads `name`.
    proof fn lemma_lists_one_more(names: Seq<Seq<char>>, i: int, name: Seq<char>)
        requires
            0 <= i < names.len(),
        ensures
            Self::lists(names.take(i + 1), name) == (Self::lists(names.take(i), name) || names[i]
                == name),
    {
        let before = names.take(i);
        let after = names.take(i + 1);
        if Self::lists(after, name) {
            let k = choose|k: int| 0 <= k < after.len() && after[k] == name;
            if k < i {
                assert(before[k] == name);
            }
        }
        if Self::lists(before, name) {
            let k = choose|k: int| 0 <= k < before.len() && before[k] == name;
            assert(after[k] == name);
        }
        if names[i] == name {
            assert(after[i] == name);
        }
    }
}

impl Default for Preprocessors {
    fn default() -> (list: Self)
        ensures
            list == (Preprocessors { katex: false, numbering: false }),
    {
        Preprocessors::new()
    }
}

/// The configuration of the preprocessor.
#[derive(Debug, Clone, Copy)]
pub struct NumberingConfig {
    /// The preprocessors that this one is declared to run after.
    pub after: Preprocessors,
    /// The preprocessors that this one is declared to run before.
    pub before: Preprocessors,
    /// The configuration of line numbering in code blocks.
    pub code: CodeConfig,
    /// The configuration of heading numbering.
    pub heading: HeadingConfig,
}

impl NumberingConfig {
    /// The default: both numberings on, no ordering declared.
    pub open spec fn default_spec() -> NumberingConfig {
        NumberingConfig {
            after: Preprocessors { katex: false, numbering: false },
            before: Preprocessors { katex: false, numbering: false },
            code: CodeConfig { enable: true },
            heading: HeadingConfig { enable: true, numbering_style: NumberingStyle::Consecutive },
        }
    }

    /// The default: both numberings on, no ordering declared.
    pub fn new() -> (config: Self)
        ensures
            config === Self::default_spec(),
    {
        NumberingConfig {
            after: Preprocessors::new(),
            before: Preprocessors::new(),
            code: CodeConfig::new(),
            heading: HeadingConfig::new(),
        }
    }
}

impl Default for NumberingConfig {
    fn default() -> (config: Self)
        ensures
            config === Self::default_spec(),
    {
        NumberingConfig::new()
    }
}

/// Two configurations are equal when they number the same way: the ordering
/// lists take no part in the comparison.
impl PartialEq for NumberingConfig {
    fn eq(&self, other: &Self) -> (equal: bool) {
        self.code == other.code && self.heading == other.heading
    }
}

impl PartialEqSpecImpl for NumberingConfig {
    open spec fn obeys_eq_spec() -> bool {
        true
    }

    open spec fn eq_spec(&self, other: &Self) -> bool {
        self.code == other.code && self.heading == other.heading
    }
}

impl Eq for NumberingConfig {

}

} // verus!
