use auto_commit::commit::Commit;
use auto_commit::git::Query;
use auto_commit::session::{
    Action, Answer, Event, Options, Phase, Session, Status, DECLINED, EMPTY_EDIT,
    INCOMPLETE_PROPOSAL, MALFORMED_OUTPUT, MISSING_KEY, NOTHING_STAGED, NOT_A_REPOSITORY,
    UNEXPECTED_EVENT, UNPARSABLE_RESPONSE,
};

const DIFF: &str = "diff --git a/src/lib.rs b/src/lib.rs\n-    i <= n\n+    i < n\n";

fn options(dry_run: bool, review: bool, force: bool) -> Options {
    Options { dry_run, review, force, quiet: false }
}

fn output(text: &str) -> Event {
    Event::Output { stdout: text.as_bytes().to_vec() }
}

fn proposal() -> Event {
    Event::Generated {
        commit: Some(Commit::new("Fix bug".to_string(), "Corrects off-by-one.".to_string())),
    }
}

fn stop(status: Status, message: &str) -> Action {
    Action::Stop { status, message: message.to_string() }
}

/// A session that has passed every check and waits for the model.
fn awaiting_completion(opts: Options) -> Session {
    let mut s = Session::new(opts);
    assert_eq!(s.step(Event::Credential { present: true }), Action::Run { query: Query::RepositoryProbe });
    assert_eq!(s.step(output("true\n")), Action::Run { query: Query::StagedDiff });
    assert_eq!(s.step(output(DIFF)), Action::Run { query: Query::HeadDiff });
    assert_eq!(
        s.step(output(DIFF)),
        Action::Request { diff: DIFF.to_string(), show_spinner: false }
    );
    assert_eq!(s.phase(), Phase::AwaitingCompletion);
    s
}

/// A session that shows the proposal and waits for the answer.
fn confirming(review: bool) -> Session {
    let mut s = awaiting_completion(options(false, review, false));
    assert_eq!(
        s.step(proposal()),
        Action::Confirm { message: "Fix bug\n\nCorrects off-by-one.".to_string() }
    );
    s
}

fn assert_never_commits(s: &mut Session) {
    let events = vec![
        Event::Answered { answer: Answer::Yes },
        output("true\n"),
        proposal(),
        Event::Edited { text: "text".to_string() },
        Event::Credential { present: true },
    ];
    for e in events {
        let a = s.step(e);
        assert_eq!(a, stop(Status::Failure, UNEXPECTED_EVENT));
    }
}

#[test]
fn missing_credential_fails() {
    let mut s = Session::new(options(false, false, false));
    assert_eq!(s.step(Event::Credential { present: false }), stop(Status::Failure, MISSING_KEY));
    assert_eq!(s.phase(), Phase::Done);
}

#[test]
fn outside_a_work_tree_fails_with_message() {
    let mut s = Session::new(options(false, false, true));
    s.step(Event::Credential { present: true });
    assert_eq!(s.step(output("")), stop(Status::Failure, NOT_A_REPOSITORY));
    assert_eq!(
        NOT_A_REPOSITORY,
        "It looks like you are not in a git repository.\nPlease run this command from the root of a git repository, or initialize one using `git init`."
    );
    assert_never_commits(&mut s);
}

#[test]
fn probe_saying_false_fails() {
    let mut s = Session::new(options(false, false, false));
    s.step(Event::Credential { present: true });
    assert_eq!(s.step(output("false\n")), stop(Status::Failure, NOT_A_REPOSITORY));
}

#[test]
fn nothing_staged_gives_the_warning() {
    let mut s = Session::new(options(false, false, true));
    s.step(Event::Credential { present: true });
    s.step(output("true\n"));
    assert_eq!(s.step(output("")), stop(Status::Failure, NOTHING_STAGED));
    assert_eq!(
        NOTHING_STAGED,
        "There are no staged files to commit.\nTry running `git add` to stage some files."
    );
    assert_never_commits(&mut s);
}

#[test]
fn malformed_output_fails() {
    let mut s = Session::new(options(false, false, false));
    s.step(Event::Credential { present: true });
    assert_eq!(
        s.step(Event::Output { stdout: vec![0xff, 0xfe] }),
        stop(Status::Failure, MALFORMED_OUTPUT)
    );
}

#[test]
fn spinner_only_when_quiet_and_not_dry_run() {
    for (dry_run, quiet, shown) in [(false, true, true), (true, true, false), (false, false, false)] {
        let mut s = Session::new(Options { dry_run, review: false, force: false, quiet });
        s.step(Event::Credential { present: true });
        s.step(output("true\n"));
        s.step(output(DIFF));
        assert_eq!(
            s.step(output(DIFF)),
            Action::Request { diff: DIFF.to_string(), show_spinner: shown }
        );
    }
}

#[test]
fn dry_run_prints_exact_message_and_never_commits() {
    let mut s = awaiting_completion(options(true, false, false));
    assert_eq!(s.step(proposal()), stop(Status::Success, "Fix bug\n\nCorrects off-by-one."));
    assert_never_commits(&mut s);
}

#[test]
fn dry_run_with_force_still_never_commits() {
    let mut s = awaiting_completion(options(true, true, true));
    assert_eq!(s.step(proposal()), stop(Status::Success, "Fix bug\n\nCorrects off-by-one."));
    assert_eq!(s.phase(), Phase::Done);
}

#[test]
fn unparsable_response_fails() {
    let mut s = awaiting_completion(options(false, false, false));
    assert_eq!(
        s.step(Event::Generated { commit: None }),
        stop(Status::Failure, UNPARSABLE_RESPONSE)
    );
}

#[test]
fn incomplete_proposal_fails() {
    let mut s = awaiting_completion(options(false, false, true));
    let empty_title = Commit::new(String::new(), "Corrects off-by-one.".to_string());
    assert_eq!(
        s.step(Event::Generated { commit: Some(empty_title) }),
        stop(Status::Failure, INCOMPLETE_PROPOSAL)
    );
}

#[test]
fn forced_run_commits_without_asking() {
    let mut s = awaiting_completion(options(false, true, true));
    assert_eq!(
        s.step(proposal()),
        Action::Commit { message: "Fix bug\n\nCorrects off-by-one.".to_string(), review: true }
    );
    assert_eq!(
        s.step(output("[main 1a2b3c4] Fix bug\n")),
        stop(Status::Success, "[main 1a2b3c4] Fix bug\n")
    );
}

#[test]
fn accepting_commits_the_proposal() {
    let mut s = confirming(false);
    assert_eq!(
        s.step(Event::Answered { answer: Answer::Yes }),
        Action::Commit { message: "Fix bug\n\nCorrects off-by-one.".to_string(), review: false }
    );
    assert_eq!(s.phase(), Phase::Committing);
}

#[test]
fn declining_fails_and_never_commits() {
    let mut s = confirming(false);
    assert_eq!(s.step(Event::Answered { answer: Answer::No }), stop(Status::Failure, DECLINED));
    assert_eq!(DECLINED, "Commit aborted by user.");
    assert_never_commits(&mut s);
}

#[test]
fn emptied_edit_aborts() {
    let mut s = confirming(false);
    assert_eq!(
        s.step(Event::Answered { answer: Answer::Edit }),
        Action::Edit { message: "Fix bug\n\nCorrects off-by-one.".to_string() }
    );
    assert_eq!(s.step(Event::Edited { text: String::new() }), stop(Status::Failure, EMPTY_EDIT));
    assert_never_commits(&mut s);
}

#[test]
fn whitespace_only_edit_aborts() {
    let mut s = confirming(false);
    s.step(Event::Answered { answer: Answer::Edit });
    assert_eq!(s.step(Event::Edited { text: "\n \n".to_string() }), stop(Status::Failure, EMPTY_EDIT));
}

#[test]
fn modified_edit_is_committed() {
    let mut s = confirming(true);
    s.step(Event::Answered { answer: Answer::Edit });
    let edited = "Fix off-by-one in loop\n\nThe bound was inclusive.\n";
    assert_eq!(
        s.step(Event::Edited { text: edited.to_string() }),
        Action::Commit { message: edited.to_string(), review: true }
    );
    assert_eq!(s.step(output("done\n")), stop(Status::Success, "done\n"));
}

#[test]
fn event_out_of_turn_fails() {
    let mut s = Session::new(options(false, false, false));
    assert_eq!(s.step(output("true\n")), stop(Status::Failure, UNEXPECTED_EVENT));
    assert_eq!(s.phase(), Phase::Done);
    assert_eq!(s.options(), options(false, false, false));
}
