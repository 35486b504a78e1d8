use pori::coordinator::plan_fetch;
use pori::decode::decode_extraction;
use pori::session::{Command, Session};
use pori::types::{FetchError, InputKey, Mode};

fn type_text(session: &mut Session, text: &str) {
    for c in text.chars() {
        let cmd = session.handle_key(InputKey::Char(c));
        assert_eq!(cmd, Command::Wait);
    }
}

#[test]
fn typing_appends_characters_in_order() {
    let mut session = Session::new();
    assert_eq!(session.get_mode(), Mode::Navigation);
    type_text(&mut session, "abc");
    assert_eq!(session.url_to_string(), "abc");
    assert_eq!(session.get_url(), Some("abc".to_string()));
}

#[test]
fn backspace_removes_exactly_the_last_character() {
    let mut session = Session::new();
    type_text(&mut session, "ab");
    session.handle_key(InputKey::Backspace);
    assert_eq!(session.url_to_string(), "a");
    session.handle_key(InputKey::Backspace);
    assert_eq!(session.url_to_string(), "");
    // On empty text a backspace is a no-op, not an error.
    session.handle_key(InputKey::Backspace);
    assert_eq!(session.url_to_string(), "");
}

#[test]
fn backspace_without_text_is_a_no_op() {
    let mut session = Session::new();
    assert!(!session.has_url());
    session.handle_key(InputKey::Backspace);
    assert!(!session.has_url());
}

#[test]
fn escape_enters_interaction_without_touching_text() {
    let mut session = Session::new();
    type_text(&mut session, "abc");
    session.handle_key(InputKey::Escape);
    assert_eq!(session.get_mode(), Mode::Interaction);
    assert_eq!(session.url_to_string(), "abc");
}

#[test]
fn slash_returns_to_navigation_and_q_quits() {
    let mut session = Session::new();
    session.handle_key(InputKey::Escape);
    assert_eq!(session.get_mode(), Mode::Interaction);
    let cmd = session.handle_key(InputKey::Char('/'));
    assert_eq!(cmd, Command::Wait);
    assert_eq!(session.get_mode(), Mode::Navigation);
    session.handle_key(InputKey::Escape);
    let cmd = session.handle_key(InputKey::Char('q'));
    assert_eq!(cmd, Command::Quit);
}

#[test]
fn q_in_navigation_is_text_not_quit() {
    let mut session = Session::new();
    let cmd = session.handle_key(InputKey::Char('q'));
    assert_eq!(cmd, Command::Wait);
    assert_eq!(session.url_to_string(), "q");
}

#[test]
fn unrecognized_keys_are_ignored() {
    let mut session = Session::new();
    session.handle_key(InputKey::Escape);
    let cmd = session.handle_key(InputKey::Char('x'));
    assert_eq!(cmd, Command::Wait);
    assert_eq!(session.get_mode(), Mode::Interaction);
    let cmd = session.handle_key(InputKey::Enter);
    assert_eq!(cmd, Command::Wait);
    assert!(!session.is_fetch_in_flight);
}

#[test]
fn enter_launches_fetch_with_current_text() {
    let mut session = Session::new();
    type_text(&mut session, "abc");
    let cmd = session.handle_key(InputKey::Enter);
    assert_eq!(cmd, Command::Fetch("abc".to_string()));
    assert!(session.is_fetch_in_flight);
    // The mode does not change until the fetch is drained.
    assert_eq!(session.get_mode(), Mode::Navigation);
}

#[test]
fn no_second_fetch_while_one_is_in_flight() {
    let mut session = Session::new();
    type_text(&mut session, "abc");
    let cmd = session.handle_key(InputKey::Enter);
    assert!(matches!(cmd, Command::Fetch(_)));
    // A second enter is ignored while the first fetch is outstanding.
    let cmd = session.handle_key(InputKey::Enter);
    assert_eq!(cmd, Command::Wait);
    assert!(session.is_fetch_in_flight);
    // So is the refresh key in interaction mode.
    session.handle_key(InputKey::Escape);
    let cmd = session.handle_key(InputKey::Char('r'));
    assert_eq!(cmd, Command::Wait);
}

#[test]
fn refresh_retriggers_with_unchanged_text() {
    let mut session = Session::new();
    type_text(&mut session, "abc");
    session.handle_key(InputKey::Escape);
    let cmd = session.handle_key(InputKey::Char('r'));
    assert_eq!(cmd, Command::Fetch("abc".to_string()));
    assert!(session.is_fetch_in_flight);
}

#[test]
fn successful_drain_installs_result_and_enters_interaction() {
    let mut session = Session::new();
    type_text(&mut session, "abc");
    let cmd = session.handle_key(InputKey::Enter);
    assert_eq!(cmd, Command::Fetch("abc".to_string()));

    let digest = decode_extraction(r#"{"title":"T","entries":[{"title":"E1"}]}"#).unwrap();
    session.apply_fetch_outcome(Ok(digest));

    let result = session.result.as_ref().unwrap();
    assert_eq!(result.title, Some("T".to_string()));
    assert_eq!(result.entries.len(), 1);
    assert_eq!(result.entries[0].title, Some("E1".to_string()));
    assert!(!session.is_fetch_in_flight);
    assert_eq!(session.get_mode(), Mode::Interaction);
    // A new result starts unselected.
    assert_eq!(session.selection_index, None);
}

#[test]
fn failed_drain_leaves_state_as_it_was() {
    let mut session = Session::new();
    type_text(&mut session, "abc");
    session.handle_key(InputKey::Enter);
    assert!(session.is_fetch_in_flight);

    session.apply_fetch_outcome(Err(FetchError::RetrievalFailure(
        "the page could not be opened".to_string(),
    )));

    assert!(session.result.is_none());
    assert!(!session.is_fetch_in_flight);
    // The mode stays whatever it was before the fetch.
    assert_eq!(session.get_mode(), Mode::Navigation);
}

#[test]
fn failed_drain_preserves_the_previous_result() {
    let mut session = Session::new();
    let digest = decode_extraction(r#"{"title":"T","entries":[{"title":"E1"}]}"#).unwrap();
    session.apply_fetch_outcome(Ok(digest));

    session.handle_key(InputKey::Char('r'));
    let err = decode_extraction(r#"{"entries": "not-a-list"}"#).unwrap_err();
    assert!(matches!(err, FetchError::ExtractionFailure(_)));
    session.apply_fetch_outcome(Err(err));

    let result = session.result.as_ref().unwrap();
    assert_eq!(result.title, Some("T".to_string()));
    assert_eq!(result.entries.len(), 1);
    assert!(!session.is_fetch_in_flight);
}

#[test]
fn selection_wraps_around_after_one_pass() {
    let mut session = Session::new();
    let digest =
        decode_extraction(r#"{"entries":[{"title":"a"},{"title":"b"},{"title":"c"}]}"#).unwrap();
    session.apply_fetch_outcome(Ok(digest));

    session.select_next();
    assert_eq!(session.selection_index, Some(0));
    // Advancing once per entry returns the cursor to where it began.
    session.select_next();
    session.select_next();
    session.select_next();
    assert_eq!(session.selection_index, Some(0));
}

#[test]
fn selection_moves_backwards_with_wraparound() {
    let mut session = Session::new();
    let digest =
        decode_extraction(r#"{"entries":[{"title":"a"},{"title":"b"},{"title":"c"}]}"#).unwrap();
    session.apply_fetch_outcome(Ok(digest));

    session.select_previous();
    assert_eq!(session.selection_index, Some(2));
    session.select_previous();
    assert_eq!(session.selection_index, Some(1));
    session.select_next();
    assert_eq!(session.selection_index, Some(2));
    session.select_next();
    assert_eq!(session.selection_index, Some(0));
}

#[test]
fn selection_is_a_no_op_without_entries() {
    let mut session = Session::new();
    session.select_next();
    assert_eq!(session.selection_index, None);

    let digest = decode_extraction(r#"{"entries":[]}"#).unwrap();
    session.apply_fetch_outcome(Ok(digest));
    session.select_next();
    assert_eq!(session.selection_index, None);
    session.select_previous();
    assert_eq!(session.selection_index, None);
}

#[test]
fn interaction_keys_drive_the_selection() {
    let mut session = Session::new();
    let digest = decode_extraction(r#"{"entries":[{"title":"a"},{"title":"b"}]}"#).unwrap();
    session.apply_fetch_outcome(Ok(digest));
    assert_eq!(session.get_mode(), Mode::Interaction);

    session.handle_key(InputKey::Char('j'));
    assert_eq!(session.selection_index, Some(0));
    session.handle_key(InputKey::Char('j'));
    assert_eq!(session.selection_index, Some(1));
    session.handle_key(InputKey::Char('k'));
    assert_eq!(session.selection_index, Some(0));
}

#[test]
fn plan_fetch_rejects_missing_location() {
    assert!(matches!(plan_fetch(""), Err(FetchError::NoLocationSet)));
    assert!(plan_fetch("https://example.com").is_ok());
}

#[test]
fn header_text_shows_the_prompt_only_in_navigation() {
    let mut session = Session::new();
    type_text(&mut session, "abc");
    assert_eq!(session.header_text(), "Navigate: abc");
    session.handle_key(InputKey::Escape);
    assert_eq!(session.header_text(), "abc");
}

#[test]
fn set_url_replaces_the_location_wholesale() {
    let mut session = Session::new();
    type_text(&mut session, "abc");
    session.set_url("https://example.com".to_string());
    assert_eq!(session.url_to_string(), "https://example.com");
    assert!(session.has_url());
}
