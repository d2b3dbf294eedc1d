//! Dotted decimal labels.

use vstd::prelude::*;
use vstd::string::*;

verus! {

/// The character that stands for one decimal digit.
pub open spec fn digit(d: nat) -> char {
    if d == 0 {
        '0'
    } else if d == 1 {
        '1'
    } else if d == 2 {
        '2'
    } else if d == 3 {
        '3'
    } else if d == 4 {
        '4'
    } else if d == 5 {
        '5'
    } else if d == 6 {
        '6'
    } else if d == 7 {
        '7'
    } else if d == 8 {
        '8'
    } else {
        '9'
    }
}

/// The decimal rendering of `n`, without leading zeros.
pub open spec fn decimal(n: nat) -> Seq<char>
    decreases n,
{
    if n < 10 {
        seq![digit(n)]
    } else {
        decimal(n / 10).push(digit(n % 10))
    }
}

/// Every number of `numbers` in decimal, each followed by a dot.
pub open spec fn dotted(numbers: Seq<nat>) -> Seq<char>
    decreases numbers.len(),
{
    if numbers.len() == 0 {
        Seq::empty()
    } else {
        dotted(numbers.drop_last()) + decimal(numbers.last()).push('.')
    }
}

/// The label of a numbering: its numbers dot-joined with a trailing dot, as
/// in `1.2.3.`; the empty numbering is written `0`.
pub open spec fn label_of(numbers: Seq<nat>) -> Seq<char> {
    if numbers.len() == 0 {
        seq!['0']
    } else {
        dotted(numbers)
    }
}

/// The numbers that a vector of counters stands for.
pub open spec fn counters(stack: Seq<u64>) -> Seq<nat> {
    stack.map_values(|c: u64| c as nat)
}

fn digit_str(d: u64) -> (s: &'static str)
    requires
        d < 10,
    ensures
        s@ == seq![digit(d as nat)],
{
    proof {
        reveal_strlit("0");
        reveal_strlit("1");
        reveal_strlit("2");
        reveal_strlit("3");
        reveal_strlit("4");
        reveal_strlit("5");
        reveal_strlit("6");
        reveal_strlit("7");
        reveal_strlit("8");
        reveal_strlit("9");
    }
    if d == 0 {
        "0"
    } else if d == 1 {
        "1"
    } else if d == 2 {
        "2"
    } else if d == 3 {
        "3"
    } else if d == 4 {
        "4"
    } else if d == 5 {
        "5"
    } else if d == 6 {
        "6"
    } else if d == 7 {
        "7"
    } else if d == 8 {
        "8"
    } else {
        "9"
    }
}

/// Appends the decimal rendering of `n` to `out`.
pub fn push_decimal(out: &mut String, n: u64)
    ensures
        final(out)@ == old(out)@ + decimal(n as nat),
    decreases n,
{
    if n >= 10 {
        push_decimal(out, n / 10);
    }
    out.append(digit_str(n % 10));
}

/// The label of `stack`.
pub fn label(stack: &Vec<u64>) -> (label: String)
    ensures
        label@ == label_of(counters(stack@)),
{
    if stack.len() == 0 {
        proof {
            reveal_strlit("0");
        }
        return String::from_str("0");
    }
    let mut out = String::new();
    let mut i: usize = 0;
    while i < stack.len()
        invariant
            i <= stack.len(),
            out@ == dotted(counters(stack@).take(i as int)),
        decreases stack.len() - i,
    {
        push_decimal(&mut out, stack[i]);
        out.append(".");
        proof {
            reveal_strlit(".");
            assert(counters(stack@).take(i + 1).drop_last() =~= counters(stack@).take(i as int));
        }
        i = i + 1;
    }
    assert(counters(stack@).take(i as int) =~= counters(stack@));
    out
}

} // verus!
