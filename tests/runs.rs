use llm_edit::edit::EditError;
use llm_edit::session::{Action, Event, Invocation, Outcome, Phase, Session, Tracking, Warning};

fn invocation(no_patch: bool) -> Invocation {
    Invocation {
        file: "notes.txt".to_string(),
        prompt: "uppercase it".to_string(),
        model: "gpt-4o-mini".to_string(),
        no_patch,
    }
}

fn feed(s: &mut Session, e: Event) -> Action {
    assert!(s.awaits(&e), "{:?} not awaited in {:?}", e, s.phase);
    s.step(e)
}

fn reply(texts: &[Option<&str>]) -> Event {
    Event::Reply(texts.iter().map(|t| t.map(|s| s.to_string())).collect())
}

#[test]
fn start_asks_for_tracking() {
    let (s, a) = Session::start(invocation(false));
    assert_eq!(s.phase, Phase::AwaitTracking);
    assert_eq!(a, Action::QueryTracking("notes.txt".to_string()));
}

#[test]
fn tracked_file_is_read_without_confirmation() {
    let (mut s, _) = Session::start(invocation(false));
    let a = feed(&mut s, Event::Tracking(Tracking::Versioned));
    assert_eq!(a, Action::ReadFile("notes.txt".to_string()));
    assert_eq!(s.phase, Phase::AwaitFile);
}

#[test]
fn untracked_file_asks_and_accepts_yes() {
    let (mut s, _) = Session::start(invocation(false));
    assert_eq!(feed(&mut s, Event::Tracking(Tracking::Unversioned)), Action::Confirm(Warning::NotTracked));
    assert_eq!(feed(&mut s, Event::Answer("YES\n".to_string())), Action::ReadFile("notes.txt".to_string()));
}

#[test]
fn unknown_status_asks_and_accepts_y() {
    let (mut s, _) = Session::start(invocation(false));
    assert_eq!(feed(&mut s, Event::Tracking(Tracking::Unknown)), Action::Confirm(Warning::StatusUnknown));
    assert_eq!(feed(&mut s, Event::Answer("y\n".to_string())), Action::ReadFile("notes.txt".to_string()));
}

#[test]
fn empty_answer_declines_and_nothing_more_is_awaited() {
    let (mut s, _) = Session::start(invocation(false));
    feed(&mut s, Event::Tracking(Tracking::Unversioned));
    assert_eq!(feed(&mut s, Event::Answer("\n".to_string())), Action::Exit(Outcome::Declined));
    assert_eq!(s.phase, Phase::Over(Outcome::Declined));
    assert!(!s.awaits(&Event::FileRead("x".to_string())));
    assert!(!s.awaits(&Event::Written));
}

#[test]
fn other_answers_decline() {
    for line in ["n\n", "no", "yeah", "ok"] {
        let (mut s, _) = Session::start(invocation(false));
        feed(&mut s, Event::Tracking(Tracking::Unknown));
        assert_eq!(feed(&mut s, Event::Answer(line.to_string())), Action::Exit(Outcome::Declined));
    }
}

#[test]
fn end_to_end_uppercase() {
    let (mut s, _) = Session::start(invocation(false));
    feed(&mut s, Event::Tracking(Tracking::Versioned));
    let a = feed(&mut s, Event::FileRead("old text".to_string()));
    match a {
        Action::SendRequest { model, instruction } => {
            assert_eq!(model, "gpt-4o-mini");
            assert!(instruction.contains("\nuppercase it\n"));
            assert!(instruction.ends_with("\nold text\n"));
        }
        other => panic!("unexpected {:?}", other),
    }
    let a = feed(&mut s, reply(&[Some("OLD TEXT")]));
    assert_eq!(a, Action::WriteFile { path: "notes.txt".to_string(), contents: "OLD TEXT\n".to_string() });
    assert_eq!(feed(&mut s, Event::Written), Action::StageInteractive("notes.txt".to_string()));
    assert_eq!(feed(&mut s, Event::Staged(true)), Action::Exit(Outcome::Completed));
}

#[test]
fn end_to_end_untracked_confirmed() {
    let (mut s, _) = Session::start(invocation(true));
    assert!(matches!(feed(&mut s, Event::Tracking(Tracking::Unversioned)), Action::Confirm(_)));
    feed(&mut s, Event::Answer("yes\n".to_string()));
    feed(&mut s, Event::FileRead("old text".to_string()));
    let a = feed(&mut s, reply(&[Some("OLD TEXT")]));
    assert_eq!(a, Action::WriteFile { path: "notes.txt".to_string(), contents: "OLD TEXT\n".to_string() });
    assert_eq!(feed(&mut s, Event::Written), Action::Exit(Outcome::Completed));
}

#[test]
fn round_trip_ignores_original_text() {
    for (original, answer) in [("", "new"), ("same", "same"), ("abc", "")] {
        let (mut s, _) = Session::start(invocation(true));
        feed(&mut s, Event::Tracking(Tracking::Versioned));
        feed(&mut s, Event::FileRead(original.to_string()));
        let a = feed(&mut s, reply(&[Some("ignored"), Some(answer)]));
        assert_eq!(a, Action::WriteFile { path: "notes.txt".to_string(), contents: format!("{}\n", answer) });
    }
}

#[test]
fn empty_reply_fails_without_write() {
    let (mut s, _) = Session::start(invocation(false));
    feed(&mut s, Event::Tracking(Tracking::Versioned));
    feed(&mut s, Event::FileRead("old text".to_string()));
    assert_eq!(feed(&mut s, reply(&[])), Action::Exit(Outcome::Failed(EditError::NoChoices)));
    assert!(!s.awaits(&Event::Written));
}

#[test]
fn reply_without_content_fails_without_write() {
    let (mut s, _) = Session::start(invocation(false));
    feed(&mut s, Event::Tracking(Tracking::Versioned));
    feed(&mut s, Event::FileRead("old text".to_string()));
    assert_eq!(
        feed(&mut s, reply(&[Some("OLD TEXT"), None])),
        Action::Exit(Outcome::Failed(EditError::NoContent))
    );
    assert_eq!(s.phase, Phase::Over(Outcome::Failed(EditError::NoContent)));
}

#[test]
fn read_failure_ends_run() {
    let (mut s, _) = Session::start(invocation(false));
    feed(&mut s, Event::Tracking(Tracking::Versioned));
    assert_eq!(feed(&mut s, Event::ReadFailed), Action::Exit(Outcome::Failed(EditError::ReadFailed)));
}

#[test]
fn request_failures_end_run() {
    for (e, err) in [(Event::RequestFailed, EditError::RequestFailed), (Event::RequestInvalid, EditError::RequestInvalid)] {
        let (mut s, _) = Session::start(invocation(false));
        feed(&mut s, Event::Tracking(Tracking::Versioned));
        feed(&mut s, Event::FileRead("x".to_string()));
        assert_eq!(feed(&mut s, e), Action::Exit(Outcome::Failed(err)));
    }
}

#[test]
fn write_failure_ends_run_without_staging() {
    let (mut s, _) = Session::start(invocation(false));
    feed(&mut s, Event::Tracking(Tracking::Versioned));
    feed(&mut s, Event::FileRead("x".to_string()));
    feed(&mut s, reply(&[Some("y")]));
    assert_eq!(feed(&mut s, Event::WriteFailed), Action::Exit(Outcome::Failed(EditError::WriteFailed)));
}

#[test]
fn no_patch_skips_staging() {
    let (mut s, _) = Session::start(invocation(true));
    feed(&mut s, Event::Tracking(Tracking::Versioned));
    feed(&mut s, Event::FileRead("x".to_string()));
    feed(&mut s, reply(&[Some("y")]));
    assert_eq!(feed(&mut s, Event::Written), Action::Exit(Outcome::Completed));
    assert_eq!(s.phase, Phase::Over(Outcome::Completed));
}

#[test]
fn staging_failure_is_fatal() {
    let (mut s, _) = Session::start(invocation(false));
    feed(&mut s, Event::Tracking(Tracking::Versioned));
    feed(&mut s, Event::FileRead("x".to_string()));
    feed(&mut s, reply(&[Some("y")]));
    assert_eq!(feed(&mut s, Event::Written), Action::StageInteractive("notes.txt".to_string()));
    assert_eq!(feed(&mut s, Event::Staged(false)), Action::Exit(Outcome::Failed(EditError::StageFailed)));
    assert!(!s.awaits(&Event::Staged(true)));
}

#[test]
fn events_out_of_turn_are_not_awaited() {
    let (s, _) = Session::start(invocation(false));
    assert!(!s.awaits(&Event::Written));
    assert!(!s.awaits(&Event::Answer("y".to_string())));
    assert!(s.awaits(&Event::Tracking(Tracking::Unknown)));
}
