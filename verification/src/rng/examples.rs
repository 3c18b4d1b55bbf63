//! Recurrences that the control panel offers as starting points, from good
//! generators to famously bad ones.

use vstd::prelude::*;

verus! {

/// A recurrence with its name and a line on what to expect of it.
#[derive(Clone, Copy, Debug)]
pub struct RngExample {
    pub name: &'static str,
    pub description: &'static str,
    pub code: &'static str,
}

/// The number of examples on offer.
pub const RNG_EXAMPLE_COUNT: usize = 6;

/// Name, description and source text of an example, as texts.
pub struct ExampleText {
    pub name: Seq<char>,
    pub description: Seq<char>,
    pub code: Seq<char>,
}

impl View for RngExample {
    type V = ExampleText;

    open spec fn view(&self) -> ExampleText {
        ExampleText { name: self.name@, description: self.description@, code: self.code@ }
    }
}

/// The example at a place in the list.
pub open spec fn example_text(index: int) -> ExampleText {
    if index == 0 {
        ExampleText {
            name: "Xorshift32"@,
            description: "Marsaglia's classic, fast and high-quality."@,
            code: "fn rng(state: int) -> int {\n    let x = state ^ (state << 13)\n    let y = x ^ (x >> 17)\n    let z = y ^ (y << 5)\n    z & 0x7FFFFFFF\n}"@,
        }
    } else if index == 1 {
        ExampleText {
            name: "LCG MINSTD"@,
            description: "Park-Miller standard, acceptable for simple uses."@,
            code: "fn rng(state: int) -> int {\n    let next = (state * 48271) % 2147483647\n    if next == 0 { 1 } else { next }\n}"@,
        }
    } else if index == 2 {
        ExampleText {
            name: "LCG Numerical Recipes"@,
            description: "From Numerical Recipes, common but flawed."@,
            code: "fn rng(state: int) -> int {\n    (state * 1103515245 + 12345) & 0x7FFFFFFF\n}"@,
        }
    } else if index == 3 {
        ExampleText {
            name: "RANDU (Bad)"@,
            description: "IBM 1968. Famous for visible 3D hyperplanes."@,
            code: "fn rng(state: int) -> int {\n    let next = (state * 65539) % 2147483648\n    if next == 0 { 1 } else { next }\n}"@,
        }
    } else if index == 4 {
        ExampleText {
            name: "Counter (Worst)"@,
            description: "Just increments. Perfect diagonal line in 3D."@,
            code: "fn rng(state: int) -> int {\n    state + 1\n}"@,
        }
    } else {
        ExampleText {
            name: "Multiply-3 (Awful)"@,
            description: "Tiny multiplier, visible patterns."@,
            code: "fn rng(state: int) -> int {\n    (state * 3) % 2147483648\n}"@,
        }
    }
}

/// The example at a place in the list; the first is what a new panel shows.
pub fn rng_example(index: usize) -> (example: Option<RngExample>)
    ensures
        example.is_some() <==> index < RNG_EXAMPLE_COUNT,
        example matches Some(found) ==> found@ == example_text(index as int),
{
    if index == 0 {
        Some(
            RngExample {
                name: "Xorshift32",
                description: "Marsaglia's classic, fast and high-quality.",
                code: "fn rng(state: int) -> int {\n    let x = state ^ (state << 13)\n    let y = x ^ (x >> 17)\n    let z = y ^ (y << 5)\n    z & 0x7FFFFFFF\n}",
            },
        )
    } else if index == 1 {
        Some(
            RngExample {
                name: "LCG MINSTD",
                description: "Park-Miller standard, acceptable for simple uses.",
                code: "fn rng(state: int) -> int {\n    let next = (state * 48271) % 2147483647\n    if next == 0 { 1 } else { next }\n}",
            },
        )
    } else if index == 2 {
        Some(
            RngExample {
                name: "LCG Numerical Recipes",
                description: "From Numerical Recipes, common but flawed.",
                code: "fn rng(state: int) -> int {\n    (state * 1103515245 + 12345) & 0x7FFFFFFF\n}",
            },
        )
    } else if index == 3 {
        Some(
            RngExample {
                name: "RANDU (Bad)",
                description: "IBM 1968. Famous for visible 3D hyperplanes.",
                code: "fn rng(state: int) -> int {\n    let next = (state * 65539) % 2147483648\n    if next == 0 { 1 } else { next }\n}",
            },
        )
    } else if index == 4 {
        Some(
            RngExample {
                name: "Counter (Worst)",
                description: "Just increments. Perfect diagonal line in 3D.",
                code: "fn rng(state: int) -> int {\n    state + 1\n}",
            },
        )
    } else if index == 5 {
        Some(
            RngExample {
                name: "Multiply-3 (Awful)",
                description: "Tiny multiplier, visible patterns.",
                code: "fn rng(state: int) -> int {\n    (state * 3) % 2147483648\n}",
            },
        )
    } else {
        None
    }
}

/// All examples, in the order in which the panel lists them.
pub fn rng_examples() -> (list: Vec<RngExample>)
    ensures
        list@.len() == RNG_EXAMPLE_COUNT,
        forall|index: int| 0 <= index < RNG_EXAMPLE_COUNT ==> (#[trigger] list@[index])@ == example_text(index),
{
    let mut list: Vec<RngExample> = Vec::new();
    let mut index: usize = 0;
    while index < RNG_EXAMPLE_COUNT
        invariant
            index <= RNG_EXAMPLE_COUNT,
            list@.len() == index,
            forall|at: int| 0 <= at < index ==> (#[trigger] list@[at])@ == example_text(at),
        decreases RNG_EXAMPLE_COUNT - index,
    {
        match rng_example(index) {
            Some(example) => {
                list.push(example);
            },
            None => {},
        }
        index = index + 1;
    }
    list
}

} // verus!
