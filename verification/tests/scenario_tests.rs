use rpad::persist::{AuthError, WriteError};
use rpad::session::{
    AuthOutcome, CloseInstruction, DocumentSession, Mode, SaveReadiness,
};

// A walk through one editing session, with the shell's I/O outcomes played
// back into the session.
#[test]
fn full_session_walkthrough() {
    // New session; the user types "hello".
    let mut s = DocumentSession::new(None, Mode::Plain);
    s.on_text_changed("hello".to_string());
    assert!(s.is_dirty());

    // Save to /tmp/a.txt with no elevation: the session asks for a plain
    // direct write of exactly its committed text.
    assert_eq!(s.save_readiness(10), SaveReadiness::NoPath);
    let destination = "/tmp/a.txt".to_string();
    let written = s.current_text().clone();
    assert_eq!(written.as_str(), "hello");
    s.finish_save(destination, Ok(())).expect("direct write succeeded");
    assert!(!s.is_dirty());
    assert_eq!(s.save_readiness(10), SaveReadiness::Ready { elevated: false });

    // Load a different file: both history stacks are empty again.
    s.on_text_changed("hello again".to_string());
    s.load("/tmp/b.txt".to_string(), "other contents".to_string());
    assert_eq!(s.undo_depth(), 0);
    assert_eq!(s.redo_depth(), 0);
    assert!(!s.is_dirty());

    // Enabling elevated mode with an invalid secret leaves elevation off
    // and surfaces the failure; nothing was written anywhere.
    assert_eq!(
        s.enable_elevated(AuthOutcome::Invalid, 100),
        Err(AuthError::Failed)
    );
    assert!(!s.is_elevated());

    // With a valid secret the session enters elevated mode, and a save now
    // goes through the staging-and-copy route.
    s.enable_elevated(AuthOutcome::Valid("pw".to_string()), 100)
        .expect("validated secret accepted");
    assert_eq!(s.save_readiness(100), SaveReadiness::Ready { elevated: true });
    s.on_text_changed("root-owned content".to_string());
    let secret = s.credential_secret().expect("secret cached").clone();
    assert_eq!(secret.as_str(), "pw");
    s.finish_save("/tmp/b.txt".to_string(), Ok(()))
        .expect("helper copy succeeded");
    assert!(!s.is_dirty());

    // A failed elevated write leaves the document dirty.
    s.on_text_changed("more".to_string());
    assert!(s
        .finish_save("/tmp/b.txt".to_string(), Err(WriteError::CopyFailed))
        .is_err());
    assert!(s.is_dirty());

    // Closing while dirty prompts; choosing discard closes without a
    // second prompt.
    assert_eq!(s.request_close(), CloseInstruction::PromptSaveDiscardCancel);
    s.discard_changes();
    assert_eq!(s.request_close(), CloseInstruction::CloseNow);
}

// An expired credential forces re-authentication before an elevated save,
// and a rejected refresh aborts the save with no state change.
#[test]
fn expired_credential_forces_reauth() {
    let mut s = DocumentSession::new(Some("/tmp/a.txt".to_string()), Mode::Plain);
    s.enable_elevated(AuthOutcome::Valid("old-pw".to_string()), 0)
        .expect("validated secret accepted");
    s.on_text_changed("data".to_string());

    // Five minutes later the cached credential has expired.
    assert_eq!(s.save_readiness(301), SaveReadiness::NeedSecret);

    // The user's fresh secret is rejected: the save aborts, the document
    // stays dirty, and the stale credential is unchanged.
    assert_eq!(
        s.enable_elevated(AuthOutcome::Invalid, 301),
        Err(AuthError::Failed)
    );
    assert!(s.is_dirty());
    assert_eq!(s.credential_secret().map(|p| p.as_str()), Some("old-pw"));

    // A validated fresh secret refreshes the cache and the save proceeds.
    s.enable_elevated(AuthOutcome::Valid("new-pw".to_string()), 301)
        .expect("validated secret accepted");
    assert_eq!(s.save_readiness(301), SaveReadiness::Ready { elevated: true });
    s.finish_save("/tmp/a.txt".to_string(), Ok(()))
        .expect("helper copy succeeded");
    assert!(!s.is_dirty());
}
