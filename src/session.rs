//! One run of the tool as a state machine: the caller performs each action
//! (a git command, the completion request, a prompt, the editor, the commit)
//! and hands back what came of it as the next event.
use vstd::prelude::*;
use crate::commit::{commit_text, Commit};
use crate::git::{blank, decode_output, is_blank, is_work_tree, output_text, reports_work_tree, Query};

verus! {

pub const MISSING_KEY: &'static str = "Please set the OPENAI_API_KEY environment variable.";

pub const NOT_A_REPOSITORY: &'static str = "It looks like you are not in a git repository.\nPlease run this command from the root of a git repository, or initialize one using `git init`.";

pub const NOTHING_STAGED: &'static str = "There are no staged files to commit.\nTry running `git add` to stage some files.";

pub const MALFORMED_OUTPUT: &'static str = "git printed output that is not valid UTF-8.";

pub const UNPARSABLE_RESPONSE: &'static str = "Couldn't parse model response.";

pub const INCOMPLETE_PROPOSAL: &'static str = "The model proposed a commit without a title or without a description.";

pub const DECLINED: &'static str = "Commit aborted by user.";

pub const EMPTY_EDIT: &'static str = "The edited commit message is empty; nothing was committed.";

pub const UNEXPECTED_EVENT: &'static str = "The session received an event it was not waiting for.";

/// The command-line switches that shape a run.
#[derive(Debug, Clone, Copy, PartialEq, Eq, Structural)]
pub struct Options {
    /// Print the proposed message and stop.
    pub dry_run: bool,
    /// Let git open the message in the editor before it commits.
    pub review: bool,
    /// Commit without asking.
    pub force: bool,
    /// Logging is off, so a spinner shows progress instead.
    pub quiet: bool,
}

/// What the session waits for.
#[derive(Debug, Clone, Copy, PartialEq, Eq, Structural)]
pub enum Phase {
    AwaitingCredential,
    AwaitingProbe,
    AwaitingStaged,
    AwaitingDiff,
    AwaitingCompletion,
    Confirming,
    Editing,
    Committing,
    Done,
}

/// The user's reply to the confirmation prompt.
#[derive(Debug, Clone, Copy, PartialEq, Eq, Structural)]
pub enum Answer {
    Yes,
    No,
    Edit,
}

/// How a run ends.
#[derive(Debug, Clone, Copy, PartialEq, Eq, Structural)]
pub enum Status {
    Success,
    Failure,
}

/// What came of the last action.
#[derive(Debug, Clone, PartialEq, Eq)]
pub enum Event {
    /// Whether the API credential is set in the environment.
    Credential { present: bool },
    /// The standard output of the git command last asked for.
    Output { stdout: Vec<u8> },
    /// The commit that the model's function-call arguments describe, or
    /// `None` when they could not be read as one.
    Generated { commit: Option<Commit> },
    Answered { answer: Answer },
    /// The message as it stands after the editor was closed.
    Edited { text: String },
}

/// What the caller is to do next.
#[derive(Debug, Clone, PartialEq, Eq)]
pub enum Action {
    /// Run `git` with the query's arguments and report its standard output.
    Run { query: Query },
    /// Send the completion request built around this diff, with or without a spinner.
    Request { diff: String, show_spinner: bool },
    /// Show the proposed message and ask whether to commit it.
    Confirm { message: String },
    /// Open the message in the user's editor.
    Edit { message: String },
    /// Run `git commit`, feeding the message on standard input, and report its output.
    Commit { message: String, review: bool },
    /// Show the message and exit: with status 0 on success, 1 on failure.
    Stop { status: Status, message: String },
}

pub enum ActionView {
    Run { query: Query },
    Request { diff: Seq<char>, show_spinner: bool },
    Confirm { message: Seq<char> },
    Edit { message: Seq<char> },
    Commit { message: Seq<char>, review: bool },
    Stop { status: Status, message: Seq<char> },
}

impl View for Action {
    type V = ActionView;

    open spec fn view(&self) -> ActionView {
        match self {
            Action::Run { query } => ActionView::Run { query: *query },
            Action::Request { diff, show_spinner } => ActionView::Request {
                diff: diff@,
                show_spinner: *show_spinner,
            },
            Action::Confirm { message } => ActionView::Confirm { message: message@ },
            Action::Edit { message } => ActionView::Edit { message: message@ },
            Action::Commit { message, review } => ActionView::Commit {
                message: message@,
                review: *review,
            },
            Action::Stop { status, message } => ActionView::Stop {
                status: *status,
                message: message@,
            },
        }
    }
}

pub struct SessionView {
    pub options: Options,
    pub phase: Phase,
    /// The message that a confirmation, an edit or a commit is about.
    pub message: Seq<char>,
}

impl SessionView {
    /// A dry run never reaches the phases that lead to a commit.
    pub open spec fn consistent(self) -> bool {
        self.options.dry_run ==> !(self.phase is Confirming || self.phase is Editing
            || self.phase is Committing)
    }
}

/// The session ends, showing `message`.
pub open spec fn halt(s: SessionView, status: Status, message: Seq<char>) -> (SessionView, ActionView) {
    (SessionView { phase: Phase::Done, ..s }, ActionView::Stop { status, message })
}

/// The session moves to `phase` and asks for `action`.
pub open spec fn go(s: SessionView, phase: Phase, action: ActionView) -> (SessionView, ActionView) {
    (SessionView { phase, ..s }, action)
}

/// The session's response to an event: its next state and the action to take.
pub open spec fn next(s: SessionView, e: Event) -> (SessionView, ActionView) {
    match (s.phase, e) {
        (Phase::AwaitingCredential, Event::Credential { present }) => if present {
            go(s, Phase::AwaitingProbe, ActionView::Run { query: Query::RepositoryProbe })
        } else {
            halt(s, Status::Failure, MISSING_KEY@)
        },
        (Phase::AwaitingProbe, Event::Output { stdout }) => match output_text(stdout@) {
            None => halt(s, Status::Failure, MALFORMED_OUTPUT@),
            Some(t) => if reports_work_tree(t) {
                go(s, Phase::AwaitingStaged, ActionView::Run { query: Query::StagedDiff })
            } else {
                halt(s, Status::Failure, NOT_A_REPOSITORY@)
            },
        },
        (Phase::AwaitingStaged, Event::Output { stdout }) => match output_text(stdout@) {
            None => halt(s, Status::Failure, MALFORMED_OUTPUT@),
            Some(t) => if t.len() == 0 {
                halt(s, Status::Failure, NOTHING_STAGED@)
            } else {
                go(s, Phase::AwaitingDiff, ActionView::Run { query: Query::HeadDiff })
            },
        },
        (Phase::AwaitingDiff, Event::Output { stdout }) => match output_text(stdout@) {
            None => halt(s, Status::Failure, MALFORMED_OUTPUT@),
            Some(t) => go(
                s,
                Phase::AwaitingCompletion,
                ActionView::Request { diff: t, show_spinner: !s.options.dry_run && s.options.quiet },
            ),
        },
        (Phase::AwaitingCompletion, Event::Generated { commit }) => match commit {
            None => halt(s, Status::Failure, UNPARSABLE_RESPONSE@),
            Some(c) => {
                let m = commit_text(c.title@, c.description@);
                if !c.complete() {
                    halt(s, Status::Failure, INCOMPLETE_PROPOSAL@)
                } else if s.options.dry_run {
                    halt(s, Status::Success, m)
                } else if s.options.force {
                    (
                        SessionView { phase: Phase::Committing, message: m, ..s },
                        ActionView::Commit { message: m, review: s.options.review },
                    )
                } else {
                    (
                        SessionView { phase: Phase::Confirming, message: m, ..s },
                        ActionView::Confirm { message: m },
                    )
                }
            },
        },
        (Phase::Confirming, Event::Answered { answer }) => match answer {
            Answer::No => halt(s, Status::Failure, DECLINED@),
            Answer::Yes => go(
                s,
                Phase::Committing,
                ActionView::Commit { message: s.message, review: s.options.review },
            ),
            Answer::Edit => go(s, Phase::Editing, ActionView::Edit { message: s.message }),
        },
        (Phase::Editing, Event::Edited { text }) => if blank(text@) {
            halt(s, Status::Failure, EMPTY_EDIT@)
        } else {
            (
                SessionView { phase: Phase::Committing, message: text@, ..s },
                ActionView::Commit { message: text@, review: s.options.review },
            )
        },
        (Phase::Committing, Event::Output { stdout }) => match output_text(stdout@) {
            None => halt(s, Status::Failure, MALFORMED_OUTPUT@),
            Some(t) => halt(s, Status::Success, t),
        },
        _ => halt(s, Status::Failure, UNEXPECTED_EVENT@),
    }
}

/// The actions that a session takes in response to a sequence of events.
pub open spec fn run(s: SessionView, events: Seq<Event>) -> Seq<ActionView>
    decreases events.len(),
{
    if events.len() == 0 {
        seq![]
    } else {
        let (s2, a) = next(s, events[0]);
        seq![a] + run(s2, events.drop_first())
    }
}

/// No action in the sequence runs `git commit`.
pub open spec fn commit_free(actions: Seq<ActionView>) -> bool {
    forall|i: int| 0 <= i < actions.len() ==> !(#[trigger] actions[i] is Commit)
}

/// A run in progress.
pub struct Session {
    options: Options,
    phase: Phase,
    message: String,
}

impl View for Session {
    type V = SessionView;

    closed spec fn view(&self) -> SessionView {
        SessionView { options: self.options, phase: self.phase, message: self.message@ }
    }
}

impl Session {
    #[verifier::type_invariant]
    closed spec fn inv(self) -> bool {
        self@.consistent()
    }

    /// A session that waits for the credential check.
    pub fn new(options: Options) -> (r: Session)
        ensures
            r@ == (SessionView { options, phase: Phase::AwaitingCredential, message: seq![] }),
    {
        Session { options, phase: Phase::AwaitingCredential, message: String::new() }
    }

    pub fn options(&self) -> (r: Options)
        ensures
            r == self@.options,
    {
        self.options
    }

    pub fn phase(&self) -> (r: Phase)
        ensures
            r == self@.phase,
    {
        self.phase
    }

    fn halt(&mut self, status: Status, message: String) -> (r: Action)
        ensures
            (final(self)@, r@) == halt(old(self)@, status, message@),
    {
        self.phase = Phase::Done;
        Action::Stop { status, message }
    }

    /// Takes in what came of the last action and says what to do next.
    pub fn step(&mut self, event: Event) -> (r: Action)
        ensures
            (final(self)@, r@) == next(old(self)@, event),
            old(self)@.consistent(),
            final(self)@.consistent(),
    {
        proof {
            use_type_invariant(&*self);
        }
        let review = self.options.review;
        match (self.phase, event) {
            (Phase::AwaitingCredential, Event::Credential { present }) => {
                if present {
                    self.phase = Phase::AwaitingProbe;
                    Action::Run { query: Query::RepositoryProbe }
                } else {
                    self.halt(Status::Failure, String::from_str(MISSING_KEY))
                }
            },
            (Phase::AwaitingProbe, Event::Output { stdout }) => match decode_output(stdout.as_slice()) {
                None => self.halt(Status::Failure, String::from_str(MALFORMED_OUTPUT)),
                Some(t) => {
                    if is_work_tree(t.as_str()) {
                        self.phase = Phase::AwaitingStaged;
                        Action::Run { query: Query::StagedDiff }
                    } else {
                        self.halt(Status::Failure, String::from_str(NOT_A_REPOSITORY))
                    }
                },
            },
            (Phase::AwaitingStaged, Event::Output { stdout }) => match decode_output(stdout.as_slice()) {
                None => self.halt(Status::Failure, String::from_str(MALFORMED_OUTPUT)),
                Some(t) => {
                    if t.as_str().is_empty() {
                        self.halt(Status::Failure, String::from_str(NOTHING_STAGED))
                    } else {
                        self.phase = Phase::AwaitingDiff;
                        Action::Run { query: Query::HeadDiff }
                    }
                },
            },
            (Phase::AwaitingDiff, Event::Output { stdout }) => match decode_output(stdout.as_slice()) {
                None => self.halt(Status::Failure, String::from_str(MALFORMED_OUTPUT)),
                Some(t) => {
                    self.phase = Phase::AwaitingCompletion;
                    Action::Request {
                        diff: t,
                        show_spinner: !self.options.dry_run && self.options.quiet,
                    }
                },
            },
            (Phase::AwaitingCompletion, Event::Generated { commit }) => match commit {
                None => self.halt(Status::Failure, String::from_str(UNPARSABLE_RESPONSE)),
                Some(c) => {
                    if !c.is_complete() {
                        self.halt(Status::Failure, String::from_str(INCOMPLETE_PROPOSAL))
                    } else {
                        let m = c.to_string();
                        if self.options.dry_run {
                            self.halt(Status::Success, m)
                        } else if self.options.force {
                            self.phase = Phase::Committing;
                            self.message = m.clone();
                            Action::Commit { message: m, review }
                        } else {
                            self.phase = Phase::Confirming;
                            self.message = m.clone();
                            Action::Confirm { message: m }
                        }
                    }
                },
            },
            (Phase::Confirming, Event::Answered { answer }) => match answer {
                Answer::No => self.halt(Status::Failure, String::from_str(DECLINED)),
                Answer::Yes => {
                    self.phase = Phase::Committing;
                    Action::Commit { message: self.message.clone(), review }
                },
                Answer::Edit => {
                    self.phase = Phase::Editing;
                    Action::Edit { message: self.message.clone() }
                },
            },
            (Phase::Editing, Event::Edited { text }) => {
                if is_blank(text.as_str()) {
                    self.halt(Status::Failure, String::from_str(EMPTY_EDIT))
                } else {
                    self.phase = Phase::Committing;
                    self.message = text.clone();
                    Action::Commit { message: text, review }
                }
            },
            (Phase::Committing, Event::Output { stdout }) => match decode_output(stdout.as_slice()) {
                None => self.halt(Status::Failure, String::from_str(MALFORMED_OUTPUT)),
                Some(t) => self.halt(Status::Success, t),
            },
            _ => self.halt(Status::Failure, String::from_str(UNEXPECTED_EVENT)),
        }
    }
}


/// A finished session stays finished: whatever events follow, it answers each
/// with a stop, and never commits.
pub proof fn lemma_done_never_commits(s: SessionView, events: Seq<Event>)
    requires
        s.phase is Done,
    ensures
        commit_free(run(s, events)),
    decreases events.len(),
{
    if events.len() > 0 {
        let (s2, a) = next(s, events[0]);
        lemma_done_never_commits(s2, events.drop_first());
        let actions = run(s, events);
        let rest = run(s2, events.drop_first());
        assert forall|i: int| 0 <= i < actions.len() implies !(#[trigger] actions[i] is Commit) by {
            if i > 0 {
                assert(actions[i] == rest[i - 1]);
            }
        }
    }
}

/// An event that ends the session without a commit leaves the whole run free of commits.
proof fn lemma_stop_is_final(s: SessionView, e: Event, later: Seq<Event>)
    requires
        next(s, e).0.phase is Done,
        !(next(s, e).1 is Commit),
    ensures
        run(s, seq![e] + later)[0] == next(s, e).1,
        commit_free(run(s, seq![e] + later)),
{
    let events = seq![e] + later;
    assert(events[0] == e);
    assert(events.drop_first() =~= later);
    lemma_done_never_commits(next(s, e).0, later);
    let actions = run(s, events);
    let rest = run(next(s, e).0, later);
    assert forall|i: int| 0 <= i < actions.len() implies !(#[trigger] actions[i] is Commit) by {
        if i > 0 {
            assert(actions[i] == rest[i - 1]);
        }
    }
}

/// Outside a work tree the run fails with the message that says so, and no
/// later event makes it commit.
pub proof fn lemma_outside_work_tree(s: SessionView, stdout: Vec<u8>, later: Seq<Event>)
    requires
        s.phase is AwaitingProbe,
        output_text(stdout@) matches Some(t) && !reports_work_tree(t),
    ensures
        run(s, seq![Event::Output { stdout }] + later)[0] == (ActionView::Stop {
            status: Status::Failure,
            message: NOT_A_REPOSITORY@,
        }),
        commit_free(run(s, seq![Event::Output { stdout }] + later)),
{
    lemma_stop_is_final(s, Event::Output { stdout }, later);
}

/// With nothing staged the run fails with the warning that says so, and no
/// later event makes it commit.
pub proof fn lemma_nothing_staged(s: SessionView, stdout: Vec<u8>, later: Seq<Event>)
    requires
        s.phase is AwaitingStaged,
        output_text(stdout@) == Some(Seq::<char>::empty()),
    ensures
        run(s, seq![Event::Output { stdout }] + later)[0] == (ActionView::Stop {
            status: Status::Failure,
            message: NOTHING_STAGED@,
        }),
        commit_free(run(s, seq![Event::Output { stdout }] + later)),
{
    lemma_stop_is_final(s, Event::Output { stdout }, later);
}

/// A dry run never runs `git commit`, whatever events come.
pub proof fn lemma_dry_run_never_commits(s: SessionView, events: Seq<Event>)
    requires
        s.options.dry_run,
        s.consistent(),
    ensures
        commit_free(run(s, events)),
    decreases events.len(),
{
    if events.len() > 0 {
        let (s2, a) = next(s, events[0]);
        assert(s2.options == s.options && s2.consistent() && !(a is Commit));
        lemma_dry_run_never_commits(s2, events.drop_first());
        let actions = run(s, events);
        let rest = run(s2, events.drop_first());
        assert forall|i: int| 0 <= i < actions.len() implies !(#[trigger] actions[i] is Commit) by {
            if i > 0 {
                assert(actions[i] == rest[i - 1]);
            }
        }
    }
}

/// A dry run ends in success once the model has proposed a commit, and shows
/// exactly its message: the title, a blank line, the description.
pub proof fn lemma_dry_run_shows_message(s: SessionView, c: Commit)
    requires
        s.options.dry_run,
        s.phase is AwaitingCompletion,
        c.complete(),
    ensures
        next(s, Event::Generated { commit: Some(c) }).1 == (ActionView::Stop {
            status: Status::Success,
            message: commit_text(c.title@, c.description@),
        }),
{
}

/// Declining the proposal fails the run, and no later event makes it commit.
pub proof fn lemma_declined(s: SessionView, later: Seq<Event>)
    requires
        s.phase is Confirming,
    ensures
        run(s, seq![Event::Answered { answer: Answer::No }] + later)[0] == (ActionView::Stop {
            status: Status::Failure,
            message: DECLINED@,
        }),
        commit_free(run(s, seq![Event::Answered { answer: Answer::No }] + later)),
{
    lemma_stop_is_final(s, Event::Answered { answer: Answer::No }, later);
}

/// An editor that leaves the message blank aborts the run, and no later event
/// makes it commit.
pub proof fn lemma_blank_edit_aborts(s: SessionView, text: String, later: Seq<Event>)
    requires
        s.phase is Editing,
        blank(text@),
    ensures
        run(s, seq![Event::Edited { text }] + later)[0] == (ActionView::Stop {
            status: Status::Failure,
            message: EMPTY_EDIT@,
        }),
        commit_free(run(s, seq![Event::Edited { text }] + later)),
{
    lemma_stop_is_final(s, Event::Edited { text }, later);
}

/// The text that the editor leaves, when it is not blank, is exactly what gets committed.
pub proof fn lemma_edited_text_committed(s: SessionView, text: String)
    requires
        s.phase is Editing,
        !blank(text@),
    ensures
        next(s, Event::Edited { text }).1 == (ActionView::Commit {
            message: text@,
            review: s.options.review,
        }),
{
}

} // verus!
