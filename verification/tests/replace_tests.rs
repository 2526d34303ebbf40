use rpad::session::{DocumentSession, Mode};

#[test]
fn replace_substitutes_next_match() {
    let mut s = DocumentSession::new(None, Mode::Plain);
    s.on_text_changed("say aa and aa".to_string());
    s.set_search_params("aa".to_string(), false);
    let span = s.replace_next(0, "bb");
    assert_eq!(span, Some((4, 6)));
    assert_eq!(s.current_text().as_str(), "say bb and aa");
    assert!(s.is_dirty());
}

#[test]
fn replace_wraps_from_past_the_match() {
    let mut s = DocumentSession::new(None, Mode::Plain);
    s.on_text_changed("target early".to_string());
    s.set_search_params("target".to_string(), false);
    let span = s.replace_next(8, "hit");
    assert_eq!(span, Some((0, 6)));
    assert_eq!(s.current_text().as_str(), "hit early");
}

#[test]
fn replace_without_match_changes_nothing() {
    let mut s = DocumentSession::new(None, Mode::Plain);
    s.on_text_changed("abc".to_string());
    s.set_search_params("zzz".to_string(), false);
    let depth = s.undo_depth();
    assert_eq!(s.replace_next(0, "q"), None);
    assert_eq!(s.current_text().as_str(), "abc");
    assert_eq!(s.undo_depth(), depth);
}

#[test]
fn replace_ignores_case_unless_asked() {
    let mut s = DocumentSession::new(None, Mode::Plain);
    s.on_text_changed("Hello World".to_string());
    s.set_search_params("world".to_string(), false);
    assert_eq!(s.replace_next(0, "Verus"), Some((6, 11)));
    assert_eq!(s.current_text().as_str(), "Hello Verus");
}

#[test]
fn single_undo_reverts_whole_replace() {
    let mut s = DocumentSession::new(None, Mode::Plain);
    s.on_text_changed("the quick fox".to_string());
    s.set_search_params("quick".to_string(), false);
    s.replace_next(0, "slow brown");
    assert_eq!(s.current_text().as_str(), "the slow brown fox");
    // One undo restores the exact pre-replace text, never an intermediate
    // post-delete state.
    assert_eq!(s.undo().as_deref(), Some("the quick fox"));
    assert_eq!(s.current_text().as_str(), "the quick fox");
}

#[test]
fn replacement_with_different_length_keeps_suffix() {
    let mut s = DocumentSession::new(None, Mode::Plain);
    s.on_text_changed("a mid z".to_string());
    s.set_search_params("mid".to_string(), true);
    assert_eq!(s.replace_next(0, ""), Some((2, 5)));
    assert_eq!(s.current_text().as_str(), "a  z");
}
