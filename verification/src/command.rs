//! Command lines as plain values: the shell runs them, the library composes
//! them.

use vstd::prelude::*;

verus! {

/// What an `Invocation` stands for: a program's name and its arguments, in
/// order.
pub struct CommandLine {
    pub program: Seq<char>,
    pub args: Seq<Seq<char>>,
}

/// A program to run, with its arguments.
#[derive(Clone, Debug, PartialEq, Eq)]
pub struct Invocation {
    pub program: String,
    pub args: Vec<String>,
}

/// The characters of each string of a sequence, in the same order.
pub open spec fn texts(words: Seq<String>) -> Seq<Seq<char>> {
    Seq::new(words.len(), |i: int| words[i]@)
}

/// The characters of each string slice of a sequence, in the same order.
pub open spec fn slice_texts(words: Seq<&str>) -> Seq<Seq<char>> {
    Seq::new(words.len(), |i: int| words[i]@)
}

impl View for Invocation {
    type V = CommandLine;

    open spec fn view(&self) -> CommandLine {
        CommandLine { program: self.program@, args: texts(self.args@) }
    }
}

/// Copies each string slice into a string of its own.
pub fn owned_words(words: &Vec<&str>) -> (owned: Vec<String>)
    ensures
        texts(owned@) == slice_texts(words@),
{
    let mut owned: Vec<String> = Vec::new();
    let mut i: usize = 0;
    while i < words.len()
        invariant
            i <= words.len(),
            owned.len() == i,
            forall|k: int| 0 <= k < i ==> owned@[k]@ == words@[k]@,
        decreases words.len() - i,
    {
        owned.push(words[i].to_owned());
        i += 1;
    }
    assert(texts(owned@) =~= slice_texts(words@));
    owned
}

impl Invocation {
    /// The invocation of `program` with `args`.
    pub fn new(program: &str, args: &Vec<&str>) -> (invocation: Invocation)
        ensures
            invocation@ == (CommandLine { program: program@, args: slice_texts(args@) }),
    {
        Invocation { program: program.to_owned(), args: owned_words(args) }
    }
}

} // verus!
