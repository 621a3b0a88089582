//! The logging sink: an in-memory journal of the lines that the operations emit.
//!
//! Every operation of this crate reports what it is doing by appending exactly one
//! line to a [`Journal`] that the caller hands in. The host decides what happens to
//! the lines afterwards (typically it forwards them to its console).

use vstd::prelude::*;

verus! {

/// An append-only record of log lines, oldest first.
///
/// Its view is the sequence of the recorded lines, each as a sequence of characters.
pub struct Journal {
    lines: Vec<String>,
}

impl View for Journal {
    type V = Seq<Seq<char>>;

    closed spec fn view(&self) -> Seq<Seq<char>> {
        self.lines@.map_values(|line: String| line@)
    }
}

impl Journal {
    /// A journal with no lines.
    pub fn new() -> (journal: Journal)
        ensures
            journal@ == Seq::<Seq<char>>::empty(),
    {
        let journal = Journal { lines: Vec::new() };
        assert(journal@ =~= Seq::<Seq<char>>::empty());
        journal
    }

    /// Appends `line` after everything recorded so far.
    pub fn record(&mut self, line: String)
        ensures
            final(self)@ == old(self)@.push(line@),
    {
        self.lines.push(line);
        assert(self@ =~= old(self)@.push(line@));
    }

    /// The number of recorded lines.
    pub fn len(&self) -> (n: usize)
        ensures
            n == self@.len(),
    {
        self.lines.len()
    }

    /// The line at position `index`, counting from the oldest at 0, or `None` when
    /// fewer than `index + 1` lines were recorded.
    pub fn line(&self, index: usize) -> (found: Option<&str>)
        ensures
            index < self@.len() ==> found is Some && found->0@ == self@[index as int],
            index >= self@.len() ==> found is None,
    {
        if index < self.lines.len() {
            Some(self.lines[index].as_str())
        } else {
            None
        }
    }

    /// Hands the recorded lines out, oldest first, and ends the journal.
    pub fn into_lines(self) -> (lines: Vec<String>)
        ensures
            lines@.len() == self@.len(),
            forall|i: int| 0 <= i < lines@.len() ==> (#[trigger] lines@[i])@ == self@[i],
    {
        self.lines
    }
}

} // verus!
