//! The number stack: the counters from which heading labels are made.

use vstd::prelude::*;
use crate::config::NumberingStyle;
use crate::label::{counters, label, label_of};
use crate::level::HeadingLevel;

verus! {

/// The numbers that a chapter number stands for.
pub open spec fn numbers(base: Seq<u32>) -> Seq<nat> {
    base.map_values(|n: u32| n as nat)
}

/// The depth of a heading of level `level` in a chapter whose number has
/// `base_len` parts: the level itself under `Consecutive`; under `Top` level 1
/// has the depth of the chapter's number.
pub open spec fn heading_depth(style: NumberingStyle, level: HeadingLevel, base_len: nat) -> nat {
    match style {
        NumberingStyle::Consecutive => level.spec_depth(),
        NumberingStyle::Top => (level.spec_depth() + base_len - 1) as nat,
    }
}

/// `stack` brought to exactly `depth` counters: cut off behind the first
/// `depth`, or filled up with zeros.
pub open spec fn resized(stack: Seq<nat>, depth: nat) -> Seq<nat> {
    if depth <= stack.len() {
        stack.take(depth as int)
    } else {
        stack + Seq::new((depth - stack.len()) as nat, |i: int| 0nat)
    }
}

/// The stack after a heading of depth `depth` has been entered: brought to
/// `depth` counters, the last of them counted up where the heading lies below
/// the chapter's own depth `base_len`.
pub open spec fn entered(stack: Seq<nat>, depth: nat, base_len: nat) -> Seq<nat> {
    let level = resized(stack, depth);
    if depth > base_len {
        level.update(depth - 1, level[depth - 1] + 1)
    } else {
        level
    }
}

/// Whether a heading of depth `depth` leaves out a level: it lies more than
/// one level below the deepest counter of `stack`.
pub open spec fn skips_level(stack: Seq<nat>, depth: nat) -> bool {
    depth > stack.len() + 1
}

/// Whether a heading of depth `depth` lies above the chapter itself, which
/// the `Consecutive` style cannot number.
pub open spec fn above_chapter(style: NumberingStyle, depth: nat, base_len: nat) -> bool {
    style == NumberingStyle::Consecutive && depth < base_len
}

/// The counters of one chapter, seeded with the chapter's number.
#[derive(Debug)]
pub struct NumberStack {
    counters: Vec<u64>,
    base_len: usize,
}

impl View for NumberStack {
    type V = Seq<nat>;

    closed spec fn view(&self) -> Seq<nat> {
        counters(self.counters@)
    }
}

impl NumberStack {
    /// The length of the chapter number that the stack was seeded with.
    pub closed spec fn base_len(&self) -> nat {
        self.base_len as nat
    }

    /// Whether a heading of depth `depth` can be entered: the counter that it
    /// would count up has not reached the largest value a counter can hold.
    pub open spec fn has_room(&self, depth: nat) -> bool {
        self.base_len() < depth <= self@.len() ==> self@[depth - 1] < u64::MAX
    }

    /// A stack seeded with a copy of `base`.
    pub fn new(base: &Vec<u32>) -> (stack: Self)
        ensures
            stack@ == numbers(base@),
            stack.base_len() == base.len(),
    {
        let mut seeded: Vec<u64> = Vec::new();
        let mut i: usize = 0;
        while i < base.len()
            invariant
                i <= base.len(),
                seeded@.len() == i,
                forall|k: int| 0 <= k < i ==> seeded@[k] == base@[k],
            decreases base.len() - i,
        {
            seeded.push(base[i] as u64);
            i = i + 1;
        }
        NumberStack { counters: seeded, base_len: base.len() }
    }

    /// The number of counters on the stack.
    pub fn len(&self) -> (len: usize)
        ensures
            len == self@.len(),
    {
        self.counters.len()
    }

    /// The depth at which a heading of level `level` is numbered.
    pub fn depth_of(&self, style: NumberingStyle, level: HeadingLevel) -> (depth: usize)
        requires
            self.base_len() + 6 <= usize::MAX,
        ensures
            depth == heading_depth(style, level, self.base_len()),
    {
        match style {
            NumberingStyle::Consecutive => level.depth(),
            NumberingStyle::Top => level.depth() + self.base_len - 1,
        }
    }

    /// Whether a heading of depth `depth` lies above the chapter itself under
    /// `style`.
    pub fn is_above_chapter(&self, style: NumberingStyle, depth: usize) -> (above: bool)
        ensures
            above == above_chapter(style, depth as nat, self.base_len()),
    {
        match style {
            NumberingStyle::Consecutive => depth < self.base_len,
            NumberingStyle::Top => false,
        }
    }

    /// Enters a heading of depth `depth`.
    pub fn enter(&mut self, depth: usize)
        requires
            old(self).has_room(depth as nat),
        ensures
            final(self)@ == entered(old(self)@, depth as nat, old(self).base_len()),
            final(self).base_len() == old(self).base_len(),
    {
        let ghost before = self.counters@;
        while self.counters.len() < depth
            invariant
                self.base_len == old(self).base_len,
                before.len() <= self.counters@.len(),
                self.counters@.len() <= depth || self.counters@.len() == before.len(),
                forall|k: int| 0 <= k < before.len() ==> self.counters@[k] == before[k],
                forall|k: int| before.len() <= k < self.counters@.len() ==> self.counters@[k] == 0,
            decreases depth - self.counters.len(),
        {
            self.counters.push(0);
        }
        self.counters.truncate(depth);
        if depth > self.base_len {
            let count = self.counters[depth - 1];
            self.counters[depth - 1] = count + 1;
        }
    }

    /// The label of the stack as it stands.
    pub fn label(&self) -> (text: String)
        ensures
            text@ == label_of(self@),
    {
        label(&self.counters)
    }
}

} // verus!
