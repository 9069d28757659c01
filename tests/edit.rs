use neighborhood_cli::edit::{
    editor_args, parse_answer, plan_start, resolve_editor, trim, validate_stored, Answer, EditSession, Event,
    Phase, StartPlan, Step,
};
use neighborhood_cli::error::{ConfigError, MainError};
use neighborhood_cli::release::{FieldValue, ReleaseDocument};

fn s(v: &str) -> String {
    v.to_string()
}

#[test]
fn unparsable_edit_then_no_aborts() {
    let (mut session, first) = EditSession::new();
    assert_eq!(first, Step::RunEditor);
    assert_eq!(session.advance(Event::EditorExited), Some(Step::Parse));
    assert_eq!(
        session.advance(Event::Parsed(Err(s("expected `=`")))),
        Some(Step::AskRetry(ConfigError::Syntax(s("expected `=`"))))
    );
    assert_eq!(session.phase(), Phase::AwaitingUserDecision);
    assert_eq!(session.advance(Event::Answered(s("no\n"))), Some(Step::Abort));
    assert_eq!(session.phase(), Phase::Aborted);
    assert_eq!(session.advance(Event::EditorExited), None);
    assert_eq!(session.phase(), Phase::Aborted);
}

#[test]
fn retry_reopens_editor() {
    let (mut session, _) = EditSession::new();
    session.advance(Event::EditorExited);
    let doc = ReleaseDocument { entries: vec![(s("codeUrl"), FieldValue::Str(String::new()))] };
    assert_eq!(
        session.advance(Event::Parsed(Ok(doc))),
        Some(Step::AskRetry(ConfigError::EmptyField(s("codeUrl"))))
    );
    assert_eq!(session.advance(Event::Answered(s("maybe"))), Some(Step::AskAgain(s("maybe"))));
    assert_eq!(session.advance(Event::Answered(s(" y \r\n"))), Some(Step::RunEditor));
    assert_eq!(session.phase(), Phase::Editing);
}

#[test]
fn events_out_of_turn_are_ignored() {
    let (mut session, _) = EditSession::new();
    assert_eq!(session.advance(Event::Answered(s("yes"))), None);
    assert_eq!(session.advance(Event::Parsed(Err(s("x")))), None);
    assert_eq!(session.phase(), Phase::Editing);
}

#[test]
fn stored_document_refusal_is_an_error() {
    assert_eq!(
        validate_stored(Err(s("bad"))),
        Err(MainError::ParseReleaseConfig(ConfigError::Syntax(s("bad"))))
    );
    let doc = ReleaseDocument { entries: vec![] };
    assert_eq!(
        validate_stored(Ok(doc)),
        Err(MainError::ParseReleaseConfig(ConfigError::MissingField(s("codeUrl"))))
    );
}

#[test]
fn start_plans() {
    assert_eq!(plan_start(false, false, false), StartPlan::EditTemplate);
    assert_eq!(plan_start(true, true, true), StartPlan::EditTemplate);
    assert_eq!(plan_start(true, true, false), StartPlan::EditStored);
    assert_eq!(plan_start(true, false, false), StartPlan::ValidateStored);
}

#[test]
fn editor_fallbacks() {
    assert_eq!(resolve_editor(Some(s("hx")), Some(s("vi")), Some(s("ed"))), Ok(s("hx")));
    assert_eq!(resolve_editor(None, Some(s("vi")), Some(s("ed"))), Ok(s("vi")));
    assert_eq!(resolve_editor(None, None, Some(s("ed"))), Ok(s("ed")));
    assert_eq!(resolve_editor(None, None, None), Err(MainError::NoEditor));
    assert_eq!(editor_args(vec![s("-w")], s("/tmp/p.toml")), vec![s("-w"), s("/tmp/p.toml")]);
}

#[test]
fn answers() {
    assert_eq!(parse_answer("yes\n"), Answer::Yes);
    assert_eq!(parse_answer("  n "), Answer::No);
    assert_eq!(parse_answer("No"), Answer::Unknown(s("No")));
    assert_eq!(parse_answer("\u{3000}y\u{a0}"), Answer::Yes);
    assert_eq!(trim(" \t a b \n"), "a b");
    assert_eq!(trim("   "), "");
}
