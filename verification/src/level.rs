//! Heading levels.

use vstd::prelude::*;

verus! {

/// The level of a heading, from the outermost (`H1`) to the innermost (`H6`).
#[derive(Clone, Copy, Debug, PartialEq, Eq, Structural)]
pub enum HeadingLevel {
    H1,
    H2,
    H3,
    H4,
    H5,
    H6,
}

impl HeadingLevel {
    /// The literal depth of the level: 1 for `H1` up to 6 for `H6`.
    pub open spec fn spec_depth(self) -> nat {
        match self {
            HeadingLevel::H1 => 1,
            HeadingLevel::H2 => 2,
            HeadingLevel::H3 => 3,
            HeadingLevel::H4 => 4,
            HeadingLevel::H5 => 5,
            HeadingLevel::H6 => 6,
        }
    }

    /// The name under which the level appears in messages: `h1` to `h6`.
    pub open spec fn spec_name(self) -> Seq<char> {
        match self {
            HeadingLevel::H1 => "h1"@,
            HeadingLevel::H2 => "h2"@,
            HeadingLevel::H3 => "h3"@,
            HeadingLevel::H4 => "h4"@,
            HeadingLevel::H5 => "h5"@,
            HeadingLevel::H6 => "h6"@,
        }
    }

    /// The level nearest to `depth`: depths below 1 give `H1`, depths above 6
    /// give `H6`.
    pub open spec fn spec_from_depth(depth: nat) -> HeadingLevel {
        if depth <= 1 {
            HeadingLevel::H1
        } else if depth == 2 {
            HeadingLevel::H2
        } else if depth == 3 {
            HeadingLevel::H3
        } else if depth == 4 {
            HeadingLevel::H4
        } else if depth == 5 {
            HeadingLevel::H5
        } else {
            HeadingLevel::H6
        }
    }

    /// The literal depth of the level: 1 for `H1` up to 6 for `H6`.
    pub fn depth(self) -> (depth: usize)
        ensures
            depth == self.spec_depth(),
            1 <= depth <= 6,
    {
        match self {
            HeadingLevel::H1 => 1,
            HeadingLevel::H2 => 2,
            HeadingLevel::H3 => 3,
            HeadingLevel::H4 => 4,
            HeadingLevel::H5 => 5,
            HeadingLevel::H6 => 6,
        }
    }

    /// The level nearest to `depth`; for a depth from 1 to 6 this is the
    /// level of exactly that depth.
    pub fn from_depth(depth: usize) -> (level: HeadingLevel)
        ensures
            level == Self::spec_from_depth(depth as nat),
            1 <= depth <= 6 ==> level.spec_depth() == depth,
    {
        if depth <= 1 {
            HeadingLevel::H1
        } else if depth == 2 {
            HeadingLevel::H2
        } else if depth == 3 {
            HeadingLevel::H3
        } else if depth == 4 {
            HeadingLevel::H4
        } else if depth == 5 {
            HeadingLevel::H5
        } else {
            HeadingLevel::H6
        }
    }

    /// The name under which the level appears in messages: `h1` to `h6`.
    pub fn name(self) -> (name: &'static str)
        ensures
            name@ == self.spec_name(),
    {
        match self {
            HeadingLevel::H1 => "h1",
            HeadingLevel::H2 => "h2",
            HeadingLevel::H3 => "h3",
            HeadingLevel::H4 => "h4",
            HeadingLevel::H5 => "h5",
            HeadingLevel::H6 => "h6",
        }
    }
}

} // verus!
