//! The git commands the tool runs, and how their output is read.
use vstd::prelude::*;
use vstd::utf8::{decode_utf8, valid_utf8};

verus! {

/// The text that a command printed, when its bytes are valid UTF-8.
pub open spec fn output_text(bytes: Seq<u8>) -> Option<Seq<char>> {
    if valid_utf8(bytes) {
        Some(decode_utf8(bytes))
    } else {
        None
    }
}

/// Relies on `std::str::from_utf8`: it accepts exactly the valid UTF-8 byte
/// strings, and then yields the characters they encode.
#[verifier::external_body]
fn str_from_utf8(bytes: &[u8]) -> (r: Option<&str>)
    ensures
        r is Some <==> valid_utf8(bytes@),
        r matches Some(s) ==> s@ == decode_utf8(bytes@),
{
    std::str::from_utf8(bytes).ok()
}

/// Decodes what a command printed; `None` when it is not valid UTF-8.
pub fn decode_output(bytes: &[u8]) -> (r: Option<String>)
    ensures
        r matches Some(s) ==> output_text(bytes@) == Some(s@),
        r is None ==> output_text(bytes@) is None,
{
    match str_from_utf8(bytes) {
        Some(s) => Some(String::from_str(s)),
        None => None,
    }
}

/// What `str::trim` leaves of a text: the text without its leading and
/// trailing Unicode whitespace.
pub uninterp spec fn trimmed(s: Seq<char>) -> Seq<char>;

/// Relies on `str::trim`: its result depends on the characters alone.
#[verifier::external_body]
fn trim(s: &str) -> (r: &str)
    ensures
        r@ == trimmed(s@),
{
    s.trim()
}

/// Whether a text holds nothing but whitespace.
pub open spec fn blank(text: Seq<char>) -> bool {
    trimmed(text).len() == 0
}

pub fn is_blank(text: &str) -> (r: bool)
    ensures
        r == blank(text@),
{
    trim(text).is_empty()
}

/// The word that `git rev-parse --is-inside-work-tree` prints inside a work tree.
pub open spec fn true_word() -> Seq<char> {
    seq!['t', 'r', 'u', 'e']
}

/// Whether the output of `git rev-parse --is-inside-work-tree` says that the
/// current directory lies inside a work tree.
pub open spec fn reports_work_tree(output: Seq<char>) -> bool {
    trimmed(output) == true_word()
}

/// Whether a word, already trimmed, is exactly `true`.
pub fn says_true(word: &str) -> (r: bool)
    ensures
        r == (word@ == true_word()),
{
    if word.unicode_len() != 4 {
        return false;
    }
    let r = word.get_char(0) == 't' && word.get_char(1) == 'r' && word.get_char(2) == 'u'
        && word.get_char(3) == 'e';
    if r {
        assert(word@ =~= true_word());
    }
    r
}

/// Reads the output of `git rev-parse --is-inside-work-tree`.
pub fn is_work_tree(output: &str) -> (r: bool)
    ensures
        r == reports_work_tree(output@),
{
    says_true(trim(output))
}

/// The characters of each of a list of arguments.
pub open spec fn arg_views(args: Seq<&str>) -> Seq<Seq<char>> {
    args.map_values(|a: &str| a@)
}

/// A git command whose printed output the session reads.
#[derive(Debug, Clone, Copy, PartialEq, Eq, Structural)]
pub enum Query {
    /// `git rev-parse --is-inside-work-tree`
    RepositoryProbe,
    /// `git diff --staged`: what the next commit would hold.
    StagedDiff,
    /// `git diff HEAD`: every change since the last commit.
    HeadDiff,
}

impl Query {
    pub open spec fn spec_args(self) -> Seq<Seq<char>> {
        match self {
            Query::RepositoryProbe => seq!["rev-parse"@, "--is-inside-work-tree"@],
            Query::StagedDiff => seq!["diff"@, "--staged"@],
            Query::HeadDiff => seq!["diff"@, "HEAD"@],
        }
    }

    /// The arguments to pass to `git`.
    pub fn args(&self) -> (r: Vec<&'static str>)
        ensures
            arg_views(r@) == self.spec_args(),
    {
        let r = match self {
            Query::RepositoryProbe => vec!["rev-parse", "--is-inside-work-tree"],
            Query::StagedDiff => vec!["diff", "--staged"],
            Query::HeadDiff => vec!["diff", "HEAD"],
        };
        assert(arg_views(r@) =~= self.spec_args());
        r
    }
}

/// The arguments of `git commit` that reads the message from standard input,
/// and, under review, opens it in the editor first.
pub open spec fn spec_commit_args(review: bool) -> Seq<Seq<char>> {
    if review {
        seq!["commit"@, "-e"@, "-F"@, "-"@]
    } else {
        seq!["commit"@, "-F"@, "-"@]
    }
}

pub fn commit_args(review: bool) -> (r: Vec<&'static str>)
    ensures
        arg_views(r@) == spec_commit_args(review),
{
    let r = if review {
        vec!["commit", "-e", "-F", "-"]
    } else {
        vec!["commit", "-F", "-"]
    };
    assert(arg_views(r@) =~= spec_commit_args(review));
    r
}

} // verus!
