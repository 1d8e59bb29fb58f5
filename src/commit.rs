//! The commit record that the model fills in, and its message text.
use vstd::prelude::*;

verus! {

/// The message text of a commit: the title, a blank line, then the description.
pub open spec fn commit_text(title: Seq<char>, description: Seq<char>) -> Seq<char> {
    title + seq!['\n', '\n'] + description
}

/// A commit proposed by the model: a one-line title and a free-text description.
#[derive(Debug, Clone, PartialEq, Eq)]
pub struct Commit {
    pub title: String,
    pub description: String,
}

impl Commit {
    pub fn new(title: String, description: String) -> (r: Commit)
        ensures
            r.title@ == title@,
            r.description@ == description@,
    {
        Commit { title, description }
    }

    /// Both parts hold text: the only shape in which a proposal is used.
    pub open spec fn complete(&self) -> bool {
        self.title@.len() > 0 && self.description@.len() > 0
    }

    pub fn is_complete(&self) -> (r: bool)
        ensures
            r == self.complete(),
    {
        !self.title.as_str().is_empty() && !self.description.as_str().is_empty()
    }

    /// The conventional message text: title, blank line, description.
    pub fn to_string(&self) -> (r: String)
        ensures
            r@ == commit_text(self.title@, self.description@),
    {
        let mut text = self.title.clone();
        let separator = "\n\n";
        proof {
            reveal_strlit("\n\n");
        }
        text.append(separator);
        text.append(self.description.as_str());
        text
    }
}

} // verus!
