use rpad::persist::{AuthError, SaveError, WriteError};
use rpad::session::{
    AuthOutcome, CloseInstruction, DocumentSession, Mode, SaveReadiness, SetModeOutcome,
};

#[test]
fn new_session_is_clean_and_empty() {
    let s = DocumentSession::new(None, Mode::Plain);
    assert!(!s.is_dirty());
    assert_eq!(s.current_text().as_str(), "");
    assert!(s.path().is_none());
    assert_eq!(s.mode(), Mode::Plain);
    assert!(!s.is_elevated());
    assert_eq!(s.undo_depth(), 0);
    assert_eq!(s.redo_depth(), 0);
}

#[test]
fn edit_marks_dirty_and_records_history() {
    let mut s = DocumentSession::new(None, Mode::Plain);
    s.on_text_changed("a".to_string());
    assert!(s.is_dirty());
    assert_eq!(s.current_text().as_str(), "a");
    assert_eq!(s.undo_depth(), 1);
    assert_eq!(s.redo_depth(), 0);
}

#[test]
fn identical_text_change_is_a_noop() {
    let mut s = DocumentSession::new(None, Mode::Plain);
    s.on_text_changed("a".to_string());
    let depth = s.undo_depth();
    let dirty = s.is_dirty();
    s.on_text_changed("a".to_string());
    assert_eq!(s.undo_depth(), depth);
    assert_eq!(s.is_dirty(), dirty);
}

#[test]
fn undo_redo_round_trip_over_three_edits() {
    let mut s = DocumentSession::new(None, Mode::Plain);
    s.on_text_changed("one".to_string());
    s.on_text_changed("one two".to_string());
    s.on_text_changed("one two three".to_string());
    assert_eq!(s.undo_depth(), 3);

    assert_eq!(s.undo().as_deref(), Some("one two"));
    assert_eq!(s.current_text().as_str(), "one two");
    assert_eq!(s.undo().as_deref(), Some("one"));
    assert_eq!(s.undo().as_deref(), Some(""));
    assert_eq!(s.current_text().as_str(), "");
    assert_eq!(s.undo_depth(), 0);
    assert_eq!(s.redo_depth(), 3);
    assert!(s.undo().is_none());

    assert_eq!(s.redo().as_deref(), Some("one"));
    assert_eq!(s.redo().as_deref(), Some("one two"));
    assert_eq!(s.redo().as_deref(), Some("one two three"));
    assert_eq!(s.current_text().as_str(), "one two three");
    assert_eq!(s.undo_depth(), 3);
    assert_eq!(s.redo_depth(), 0);
    assert!(s.redo().is_none());
}

#[test]
fn undo_echo_does_not_push_opposite_stack() {
    let mut s = DocumentSession::new(None, Mode::Plain);
    s.on_text_changed("x".to_string());
    s.on_text_changed("xy".to_string());
    let restored = s.undo().expect("one edit to undo");
    // The shell sets the buffer programmatically and the widget echoes a
    // text-changed event with the restored text: nothing may move.
    let undo_before = s.undo_depth();
    let redo_before = s.redo_depth();
    s.on_text_changed(restored);
    assert_eq!(s.undo_depth(), undo_before);
    assert_eq!(s.redo_depth(), redo_before);
    assert_eq!(s.current_text().as_str(), "x");
}

#[test]
fn new_edit_after_undo_clears_redo() {
    let mut s = DocumentSession::new(None, Mode::Plain);
    s.on_text_changed("a".to_string());
    s.on_text_changed("ab".to_string());
    s.undo();
    assert_eq!(s.redo_depth(), 1);
    s.on_text_changed("ac".to_string());
    assert_eq!(s.redo_depth(), 0);
    assert_eq!(s.undo_depth(), 2);
}

#[test]
fn save_clears_dirty_and_same_text_stays_clean() {
    let mut s = DocumentSession::new(None, Mode::Plain);
    s.on_text_changed("hello".to_string());
    assert!(s.is_dirty());
    let r = s.finish_save("/tmp/a.txt".to_string(), Ok(()));
    assert!(r.is_ok());
    assert!(!s.is_dirty());
    assert_eq!(s.path().map(|p| p.as_str()), Some("/tmp/a.txt"));
    let text = s.current_text().clone();
    s.on_text_changed(text);
    assert!(!s.is_dirty());
}

#[test]
fn failed_save_changes_nothing() {
    let mut s = DocumentSession::new(None, Mode::Plain);
    s.on_text_changed("hello".to_string());
    let r = s.finish_save("/tmp/a.txt".to_string(), Err(WriteError::Io));
    assert_eq!(r, Err(SaveError::Write(WriteError::Io)));
    assert!(s.is_dirty());
    assert!(s.path().is_none());
}

#[test]
fn save_readiness_without_path() {
    let s = DocumentSession::new(None, Mode::Plain);
    assert_eq!(s.save_readiness(0), SaveReadiness::NoPath);
}

#[test]
fn save_readiness_plain_and_elevated() {
    let mut s = DocumentSession::new(Some("/tmp/a.txt".to_string()), Mode::Plain);
    assert_eq!(s.save_readiness(0), SaveReadiness::Ready { elevated: false });
    s.enable_elevated(AuthOutcome::Valid("pw".to_string()), 1000)
        .expect("validated secret accepted");
    assert_eq!(
        s.save_readiness(1000),
        SaveReadiness::Ready { elevated: true }
    );
    // Exactly at expiry the credential is still valid; one second later a
    // fresh secret is needed.
    assert_eq!(
        s.save_readiness(1300),
        SaveReadiness::Ready { elevated: true }
    );
    assert_eq!(s.save_readiness(1301), SaveReadiness::NeedSecret);
}

#[test]
fn invalid_secret_leaves_elevation_off() {
    let mut s = DocumentSession::new(None, Mode::Plain);
    let r = s.enable_elevated(AuthOutcome::Invalid, 0);
    assert_eq!(r, Err(AuthError::Failed));
    assert!(!s.is_elevated());
    assert!(s.credential_secret().is_none());
}

#[test]
fn cancelled_prompt_leaves_elevation_off() {
    let mut s = DocumentSession::new(None, Mode::Plain);
    let r = s.enable_elevated(AuthOutcome::Cancelled, 0);
    assert_eq!(r, Err(AuthError::Cancelled));
    assert!(!s.is_elevated());
}

#[test]
fn valid_secret_enables_and_disable_drops_it() {
    let mut s = DocumentSession::new(None, Mode::Plain);
    s.enable_elevated(AuthOutcome::Valid("hunter2".to_string()), 50)
        .expect("validated secret accepted");
    assert!(s.is_elevated());
    assert_eq!(s.credential_secret().map(|p| p.as_str()), Some("hunter2"));
    s.disable_elevated();
    assert!(!s.is_elevated());
    assert!(s.credential_secret().is_none());
}

#[test]
fn set_mode_rejected_while_document_has_content() {
    let mut s = DocumentSession::new(None, Mode::Plain);
    s.on_text_changed("text".to_string());
    assert_eq!(s.set_mode(Mode::Markup), SetModeOutcome::Rejected);
    assert_eq!(s.mode(), Mode::Plain);
    assert_eq!(s.set_mode(Mode::Plain), SetModeOutcome::AlreadySet);
    assert_eq!(s.mode(), Mode::Plain);
}

#[test]
fn set_mode_applies_on_empty_document() {
    let mut s = DocumentSession::new(None, Mode::Plain);
    assert_eq!(s.set_mode(Mode::Markup), SetModeOutcome::Applied);
    assert_eq!(s.mode(), Mode::Markup);
    assert_eq!(s.set_mode(Mode::Markup), SetModeOutcome::AlreadySet);
}

#[test]
fn load_resets_history_search_and_credential() {
    let mut s = DocumentSession::new(None, Mode::Markup);
    s.on_text_changed("draft".to_string());
    s.set_search_params("dr".to_string(), true);
    s.enable_elevated(AuthOutcome::Valid("pw".to_string()), 0)
        .expect("validated secret accepted");
    s.load("/tmp/other.txt".to_string(), "loaded".to_string());
    assert_eq!(s.current_text().as_str(), "loaded");
    assert_eq!(s.path().map(|p| p.as_str()), Some("/tmp/other.txt"));
    assert!(!s.is_dirty());
    assert_eq!(s.undo_depth(), 0);
    assert_eq!(s.redo_depth(), 0);
    assert_eq!(s.search_pattern().as_str(), "");
    assert!(!s.search_match_case());
    assert!(!s.is_elevated());
    assert_eq!(s.mode(), Mode::Markup);
}

#[test]
fn new_document_clears_path_and_text() {
    let mut s = DocumentSession::new(Some("/tmp/a.txt".to_string()), Mode::Plain);
    s.on_text_changed("something".to_string());
    s.new_document();
    assert!(s.path().is_none());
    assert_eq!(s.current_text().as_str(), "");
    assert!(!s.is_dirty());
    assert_eq!(s.undo_depth(), 0);
}

#[test]
fn close_prompts_only_while_dirty() {
    let mut s = DocumentSession::new(None, Mode::Plain);
    assert_eq!(s.request_close(), CloseInstruction::CloseNow);
    s.on_text_changed("unsaved".to_string());
    assert_eq!(s.request_close(), CloseInstruction::PromptSaveDiscardCancel);
    s.discard_changes();
    assert_eq!(s.request_close(), CloseInstruction::CloseNow);
    assert_eq!(s.current_text().as_str(), "unsaved");
}

#[test]
fn window_title_variants() {
    let mut s = DocumentSession::new(None, Mode::Plain);
    assert_eq!(s.window_title().as_str(), "rpad - Untitled [Plain]");
    s.load("/tmp/a.md".to_string(), String::new());
    s.set_mode(Mode::Markup);
    assert_eq!(s.window_title().as_str(), "rpad - /tmp/a.md [Markdown]");
    s.enable_elevated(AuthOutcome::Valid("pw".to_string()), 0)
        .expect("validated secret accepted");
    assert_eq!(
        s.window_title().as_str(),
        "rpad - /tmp/a.md [SUDO] [Markdown]"
    );
}

#[test]
fn default_file_name_follows_mode() {
    let mut s = DocumentSession::new(None, Mode::Plain);
    assert_eq!(s.default_file_name().as_str(), "Untitled.txt");
    s.set_mode(Mode::Markup);
    assert_eq!(s.default_file_name().as_str(), "Untitled.md");
}
