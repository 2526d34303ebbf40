//! The document session: the state machine governing what happens to
//! in-memory text and on-disk files as the user edits, saves, switches
//! modes, and authenticates for elevated writes.
//!
//! The session owns the current path, editing mode, dirty flag, committed
//! text, undo/redo history, last-used search parameters and the elevated
//! credential cache. It never touches a widget or performs I/O: the
//! surrounding shell forwards events (text changed, user commands, clock
//! readings, prompt answers, write outcomes) and carries out the returned
//! instructions.

use vstd::prelude::*;

use crate::credential::CredentialCache;
use crate::credential::CREDENTIAL_TTL_SECS;
use crate::history::SnapshotHistory;
use crate::persist::AuthError;
use crate::persist::SaveError;
use crate::persist::WriteError;
use crate::search;
use crate::search::search_spec;

verus! {

/// The document's syntax category, affecting highlighting and the default
/// file extension. Mutable only while the document content is empty.
#[derive(Clone, Copy, Debug, PartialEq, Eq, Structural)]
pub enum Mode {
    Plain,
    Markup,
}

/// Mathematical model of a session: every observable part of its state.
#[verifier::ext_equal]
pub struct SessionModel {
    /// Destination path; set on load and successful save, absent for a new
    /// document.
    pub path: Option<Seq<char>>,
    /// Current editing mode.
    pub mode: Mode,
    /// Whether the committed text differs from the last persisted snapshot.
    pub dirty: bool,
    /// The committed text: the last known content of the buffer.
    pub text: Seq<char>,
    /// Set while the session itself is mutating the buffer, so that those
    /// mutations are not recorded as user edits.
    pub suppress_history: bool,
    /// Undo stack of full-text snapshots, oldest first.
    pub undo: Seq<Seq<char>>,
    /// Redo stack of full-text snapshots, oldest first.
    pub redo: Seq<Seq<char>>,
    /// Last-used find pattern.
    pub pattern: Seq<char>,
    /// Last-used case sensitivity.
    pub match_case: bool,
    /// The elevated-write credential and its expiry, while elevated mode is
    /// active.
    pub credential: Option<(Seq<char>, u64)>,
}

/// The state after a text-changed notification carrying `t`. Programmatic
/// mutations (while history recording is suppressed) and no-op edits are
/// ignored; a real user edit records the previous text, clears the redo
/// stack and marks the document dirty.
pub open spec fn edit_applied(m: SessionModel, t: Seq<char>) -> SessionModel {
    if m.suppress_history || t == m.text {
        m
    } else {
        SessionModel {
            text: t,
            dirty: true,
            undo: m.undo.push(m.text),
            redo: Seq::empty(),
            ..m
        }
    }
}

/// The state after one undo step: with a non-empty undo stack, the current
/// text moves onto the redo stack and the popped snapshot becomes the text;
/// otherwise nothing changes. The dirty flag is not touched: restoring text
/// programmatically is not a user edit.
pub open spec fn undo_applied(m: SessionModel) -> SessionModel {
    if m.undo.len() == 0 {
        m
    } else {
        SessionModel {
            text: m.undo.last(),
            undo: m.undo.drop_last(),
            redo: m.redo.push(m.text),
            suppress_history: false,
            ..m
        }
    }
}

/// The text an undo step hands back for the buffer, if any.
pub open spec fn undo_returned(m: SessionModel) -> Option<Seq<char>> {
    if m.undo.len() == 0 {
        None
    } else {
        Some(m.undo.last())
    }
}

/// The state after one redo step, symmetric to [`undo_applied`].
pub open spec fn redo_applied(m: SessionModel) -> SessionModel {
    if m.redo.len() == 0 {
        m
    } else {
        SessionModel {
            text: m.redo.last(),
            redo: m.redo.drop_last(),
            undo: m.undo.push(m.text),
            suppress_history: false,
            ..m
        }
    }
}

/// The text a redo step hands back for the buffer, if any.
pub open spec fn redo_returned(m: SessionModel) -> Option<Seq<char>> {
    if m.redo.len() == 0 {
        None
    } else {
        Some(m.redo.last())
    }
}

/// The state after loading a file: the document is replaced wholesale, both
/// history stacks and the search state reset, and the elevated credential is
/// dropped. Only the mode carries over.
pub open spec fn loaded(m: SessionModel, path: Seq<char>, contents: Seq<char>) -> SessionModel {
    SessionModel {
        path: Some(path),
        mode: m.mode,
        dirty: false,
        text: contents,
        suppress_history: false,
        undo: Seq::empty(),
        redo: Seq::empty(),
        pattern: Seq::empty(),
        match_case: false,
        credential: None,
    }
}

/// The state after starting a new, empty document: as a load with empty
/// contents and no path.
pub open spec fn fresh_document(m: SessionModel) -> SessionModel {
    SessionModel {
        path: None,
        mode: m.mode,
        dirty: false,
        text: Seq::empty(),
        suppress_history: false,
        undo: Seq::empty(),
        redo: Seq::empty(),
        pattern: Seq::empty(),
        match_case: false,
        credential: None,
    }
}

/// The state after a successful save to `path`: the document is clean and
/// the path recorded; nothing else moves.
pub open spec fn saved(m: SessionModel, path: Seq<char>) -> SessionModel {
    SessionModel { path: Some(path), dirty: false, ..m }
}

/// The state after a mode-switch request: a no-op when the requested mode is
/// already current, rejected without any state change while the document has
/// content, applied otherwise.
pub open spec fn mode_switched(m: SessionModel, requested: Mode) -> SessionModel {
    if requested == m.mode || m.text.len() > 0 {
        m
    } else {
        SessionModel { mode: requested, ..m }
    }
}

/// The state after a replace command at `cursor`: when a forward search
/// (with wraparound) finds the pattern, the matched span is replaced by
/// `replacement` as one atomic compound edit — a single history entry
/// records the whole pre-replace text.
pub open spec fn replacement_applied(
    m: SessionModel,
    cursor: int,
    replacement: Seq<char>,
) -> SessionModel {
    match search_spec(m.text, m.pattern, cursor, true, m.match_case) {
        None => m,
        Some(s) => SessionModel {
            text: m.text.take(s) + replacement + m.text.skip(s + m.pattern.len() as int),
            dirty: true,
            undo: m.undo.push(m.text),
            redo: Seq::empty(),
            ..m
        },
    }
}

/// The span a replace command reports as replaced, if any: the matched
/// occurrence of the pattern.
pub open spec fn replacement_span(m: SessionModel, cursor: int) -> Option<(int, int)> {
    match search_spec(m.text, m.pattern, cursor, true, m.match_case) {
        None => None,
        Some(s) => Some((s, s + m.pattern.len() as int)),
    }
}

/// What a save request needs next, given the session state and the clock:
/// a destination, a fresh secret, or nothing — the write may proceed.
pub open spec fn save_readiness_spec(m: SessionModel, now: u64) -> SaveReadiness {
    if m.path is None {
        SaveReadiness::NoPath
    } else if m.credential is Some && !crate::credential::valid_at(m.credential, now) {
        SaveReadiness::NeedSecret
    } else {
        SaveReadiness::Ready { elevated: m.credential is Some }
    }
}

/// What the session instructs the shell to do about a save request.
#[derive(Clone, Copy, Debug, PartialEq, Eq, Structural)]
pub enum SaveReadiness {
    /// No destination is set: a save location must be resolved first.
    NoPath,
    /// Elevated mode is active but the cached credential has expired: a
    /// fresh secret must be obtained and validated before the write.
    NeedSecret,
    /// The write may proceed, directly or through the escalation helper.
    Ready { elevated: bool },
}

/// The answer to a secret prompt, after the operating system's validation
/// probe has been consulted.
#[derive(Debug)]
pub enum AuthOutcome {
    /// The user declined to supply a secret.
    Cancelled,
    /// A secret was supplied but the probe rejected it.
    Invalid,
    /// This secret was supplied and the probe accepted it.
    Valid(String),
}

/// What the session instructs the shell to do about a close request.
#[derive(Clone, Copy, Debug, PartialEq, Eq, Structural)]
pub enum CloseInstruction {
    /// No unsaved changes: close immediately.
    CloseNow,
    /// Unsaved changes exist: prompt for save, discard or cancel.
    PromptSaveDiscardCancel,
}

/// One per open document: the orchestrator of persistence state, history,
/// search and elevation.
pub struct DocumentSession {
    path: Option<String>,
    mode: Mode,
    dirty: bool,
    text: String,
    suppress_history: bool,
    history: SnapshotHistory,
    pattern: String,
    match_case: bool,
    credential: CredentialCache,
}

impl View for DocumentSession {
    type V = SessionModel;

    closed spec fn view(&self) -> SessionModel {
        SessionModel {
            path: match self.path {
                Some(ref p) => Some(p@),
                None => None,
            },
            mode: self.mode,
            dirty: self.dirty,
            text: self.text@,
            suppress_history: self.suppress_history,
            undo: self.history@.undo,
            redo: self.history@.redo,
            pattern: self.pattern@,
            match_case: self.match_case,
            credential: self.credential@,
        }
    }
}

impl DocumentSession {
    /// A session for a window that just opened: clean, empty text, empty
    /// history, no credential. A path may already be known (a file about to
    /// be loaded).
    pub fn new(path: Option<String>, mode: Mode) -> (s: Self)
        ensures
            s@ == (SessionModel {
                path: match path {
                    Some(p) => Some(p@),
                    None => None::<Seq<char>>,
                },
                mode: mode,
                dirty: false,
                text: Seq::<char>::empty(),
                suppress_history: false,
                undo: Seq::<Seq<char>>::empty(),
                redo: Seq::<Seq<char>>::empty(),
                pattern: Seq::<char>::empty(),
                match_case: false,
                credential: None::<(Seq<char>, u64)>,
            }),
    {
        let s = DocumentSession {
            path,
            mode,
            dirty: false,
            text: String::new(),
            suppress_history: false,
            history: SnapshotHistory::new(),
            pattern: String::new(),
            match_case: false,
            credential: CredentialCache::new(),
        };
        proof {
            assert(s@ =~= (SessionModel {
                path: match s.path {
                    Some(ref p) => Some(p@),
                    None => None::<Seq<char>>,
                },
                mode: mode,
                dirty: false,
                text: Seq::<char>::empty(),
                suppress_history: false,
                undo: Seq::<Seq<char>>::empty(),
                redo: Seq::<Seq<char>>::empty(),
                pattern: Seq::<char>::empty(),
                match_case: false,
                credential: None::<(Seq<char>, u64)>,
            }));
        }
        s
    }

    /// Notification from the text widget that the buffer now holds
    /// `new_text`. Ignored while the session itself is mutating the buffer
    /// and when the content is unchanged; a real user edit is recorded in
    /// the history and marks the document dirty.
    pub fn on_text_changed(&mut self, new_text: String)
        ensures
            final(self)@ == edit_applied(old(self)@, new_text@),
    {
        if self.suppress_history {
            return ;
        }
        if self.text == new_text {
            return ;
        }
        let previous = self.text.clone();
        self.text = new_text;
        self.history.record_edit(previous);
        self.dirty = true;
        proof {
            assert(final(self)@ =~= edit_applied(old(self)@, final(self)@.text));
        }
    }

    /// Undo one step: returns the text the shell must programmatically put
    /// back into the buffer, or nothing when there is no edit to undo.
    /// History recording is suppressed for the programmatic mutation and
    /// restored on every exit path.
    pub fn undo(&mut self) -> (r: Option<String>)
        ensures
            final(self)@ == undo_applied(old(self)@),
            match r {
                Some(t) => undo_returned(old(self)@) == Some(t@),
                None => undo_returned(old(self)@) is None,
            },
    {
        let popped = self.history.undo(&self.text);
        match popped {
            Some(t) => {
                self.suppress_history = true;
                self.text = t.clone();
                self.suppress_history = false;
                proof {
                    assert(final(self)@ =~= undo_applied(old(self)@));
                }
                Some(t)
            },
            None => {
                proof {
                    assert(final(self)@ =~= undo_applied(old(self)@));
                }
                None
            },
        }
    }

    /// Redo one step, symmetric to [`Self::undo`].
    pub fn redo(&mut self) -> (r: Option<String>)
        ensures
            final(self)@ == redo_applied(old(self)@),
            match r {
                Some(t) => redo_returned(old(self)@) == Some(t@),
                None => redo_returned(old(self)@) is None,
            },
    {
        let popped = self.history.redo(&self.text);
        match popped {
            Some(t) => {
                self.suppress_history = true;
                self.text = t.clone();
                self.suppress_history = false;
                proof {
                    assert(final(self)@ =~= redo_applied(old(self)@));
                }
                Some(t)
            },
            None => {
                proof {
                    assert(final(self)@ =~= redo_applied(old(self)@));
                }
                None
            },
        }
    }

    /// Replace the whole document from a loaded file. Both history stacks
    /// and the search state reset, and elevated mode is dropped. A failed
    /// read must not reach this method: loading is all-or-nothing, and the
    /// shell keeps the current document on a read error.
    pub fn load(&mut self, path: String, contents: String)
        ensures
            final(self)@ == loaded(old(self)@, path@, contents@),
    {
        self.suppress_history = true;
        self.history.clear();
        self.text = contents;
        self.path = Some(path);
        self.dirty = false;
        self.pattern = String::new();
        self.match_case = false;
        self.credential.clear();
        self.suppress_history = false;
        proof {
            assert(final(self)@ =~= loaded(old(self)@, final(self)@.path.unwrap(), final(self)@.text));
        }
    }

    /// Start a new, empty document: as a load with empty contents and no
    /// path.
    pub fn new_document(&mut self)
        ensures
            final(self)@ == fresh_document(old(self)@),
    {
        self.suppress_history = true;
        self.history.clear();
        self.text = String::new();
        self.path = None;
        self.dirty = false;
        self.pattern = String::new();
        self.match_case = false;
        self.credential.clear();
        self.suppress_history = false;
        proof {
            assert(final(self)@ =~= fresh_document(old(self)@));
        }
    }

    /// Request a mode switch. A no-op when the mode is already current;
    /// rejected, with no state change, while the document has content (the
    /// shell shows a warning); otherwise applied, and the shell re-applies
    /// syntax highlighting.
    pub fn set_mode(&mut self, requested: Mode) -> (r: SetModeOutcome)
        ensures
            final(self)@ == mode_switched(old(self)@, requested),
            (r == SetModeOutcome::AlreadySet) <==> requested == old(self)@.mode,
            (r == SetModeOutcome::Rejected) <==> (requested != old(self)@.mode
                && old(self)@.text.len() > 0),
            (r == SetModeOutcome::Applied) <==> (requested != old(self)@.mode
                && old(self)@.text.len() == 0),
    {
        if requested == self.mode {
            SetModeOutcome::AlreadySet
        } else if !self.text.as_str().is_empty() {
            SetModeOutcome::Rejected
        } else {
            self.mode = requested;
            proof {
                assert(final(self)@ =~= mode_switched(old(self)@, requested));
            }
            SetModeOutcome::Applied
        }
    }

    /// What a save needs next, at clock reading `now`: a destination to be
    /// resolved, a fresh secret (elevated mode active but the cached
    /// credential expired), or nothing.
    pub fn save_readiness(&self, now: u64) -> (r: SaveReadiness)
        ensures
            r == save_readiness_spec(self@, now),
    {
        match &self.path {
            None => SaveReadiness::NoPath,
            Some(_) => {
                if self.credential.is_present() {
                    if !self.credential.is_valid(now) {
                        SaveReadiness::NeedSecret
                    } else {
                        SaveReadiness::Ready { elevated: true }
                    }
                } else {
                    SaveReadiness::Ready { elevated: false }
                }
            },
        }
    }

    /// Enter elevated mode, or refresh its credential before an elevated
    /// save: the shell prompted for a secret and consulted the operating
    /// system's validation probe, and `outcome` reports the result. Only a
    /// validated secret changes any state; it is cached for the fixed
    /// five-minute window starting at `now`.
    pub fn enable_elevated(&mut self, outcome: AuthOutcome, now: u64) -> (r: Result<(), AuthError>)
        requires
            now + CREDENTIAL_TTL_SECS <= u64::MAX,
        ensures
            match outcome {
                AuthOutcome::Valid(s) => r == Ok::<(), AuthError>(()) && final(self)@ == (
                SessionModel {
                    credential: Some((s@, (now + CREDENTIAL_TTL_SECS) as u64)),
                    ..old(self)@
                }),
                AuthOutcome::Invalid => r == Err::<(), AuthError>(AuthError::Failed) && final(self)@ == old(self)@,
                AuthOutcome::Cancelled => r == Err::<(), AuthError>(AuthError::Cancelled) && final(self)@ == old(self)@,
            },
    {
        match outcome {
            AuthOutcome::Valid(s) => {
                self.credential.set(s, now);
                proof {
                    assert(final(self)@ =~= (SessionModel {
                        credential: final(self)@.credential,
                        ..old(self)@
                    }));
                }
                Ok(())
            },
            AuthOutcome::Invalid => Err(AuthError::Failed),
            AuthOutcome::Cancelled => Err(AuthError::Cancelled),
        }
    }

    /// Leave elevated mode, dropping the cached credential immediately.
    pub fn disable_elevated(&mut self)
        ensures
            final(self)@ == (SessionModel { credential: None, ..old(self)@ }),
    {
        self.credential.clear();
        proof {
            assert(final(self)@ =~= (SessionModel { credential: None, ..old(self)@ }));
        }
    }

    /// Record the outcome of the write the shell performed for a save to
    /// `path`. On success the document becomes clean and the path is
    /// recorded; on failure no state moves at all and the error is
    /// surfaced.
    pub fn finish_save(&mut self, path: String, outcome: Result<(), WriteError>) -> (r: Result<
        (),
        SaveError,
    >)
        ensures
            outcome is Ok ==> final(self)@ == saved(old(self)@, path@) && r is Ok,
            outcome matches Err(e) ==> final(self)@ == old(self)@ && r == Err::<(), SaveError>(
                SaveError::Write(e),
            ),
    {
        match outcome {
            Ok(_) => {
                self.path = Some(path);
                self.dirty = false;
                proof {
                    assert(final(self)@ =~= saved(old(self)@, final(self)@.path.unwrap()));
                }
                Ok(())
            },
            Err(e) => Err(SaveError::Write(e)),
        }
    }

    /// Store the find parameters used by subsequent find and replace
    /// commands.
    pub fn set_search_params(&mut self, pattern: String, match_case: bool)
        ensures
            final(self)@ == (SessionModel {
                pattern: pattern@,
                match_case: match_case,
                ..old(self)@
            }),
    {
        self.pattern = pattern;
        self.match_case = match_case;
        proof {
            assert(final(self)@ =~= (SessionModel {
                pattern: final(self)@.pattern,
                match_case: match_case,
                ..old(self)@
            }));
        }
    }

    /// Find the next occurrence of the stored pattern at or after `cursor`,
    /// wrapping once at the end of the buffer. The caller selects and
    /// scrolls to the returned span.
    pub fn find_next(&self, cursor: usize) -> (r: Option<(usize, usize)>)
        requires
            cursor <= self@.text.len(),
        ensures
            match r {
                Some(span) => search_spec(self@.text, self@.pattern, cursor as int, true, self@.match_case)
                    == Some(span.0 as int) && span.1 == span.0 + self@.pattern.len(),
                None => search_spec(self@.text, self@.pattern, cursor as int, true, self@.match_case)
                    is None,
            },
    {
        search::search(self.text.as_str(), self.pattern.as_str(), cursor, true, self.match_case)
    }

    /// Find the previous occurrence of the stored pattern ending at or
    /// before `cursor`, wrapping once at the start of the buffer.
    pub fn find_prev(&self, cursor: usize) -> (r: Option<(usize, usize)>)
        requires
            cursor <= self@.text.len(),
        ensures
            match r {
                Some(span) => search_spec(self@.text, self@.pattern, cursor as int, false, self@.match_case)
                    == Some(span.0 as int) && span.1 == span.0 + self@.pattern.len(),
                None => search_spec(self@.text, self@.pattern, cursor as int, false, self@.match_case)
                    is None,
            },
    {
        search::search(self.text.as_str(), self.pattern.as_str(), cursor, false, self.match_case)
    }

    /// Replace the next occurrence of the stored pattern (forward search
    /// from `cursor`, wrapping once) with `replacement`, as one atomic
    /// compound edit: a single history entry records the whole pre-replace
    /// text, so one undo reverts the whole replace. Returns the span that
    /// was replaced.
    pub fn replace_next(&mut self, cursor: usize, replacement: &str) -> (r: Option<(usize, usize)>)
        requires
            cursor <= old(self)@.text.len(),
        ensures
            final(self)@ == replacement_applied(old(self)@, cursor as int, replacement@),
            match r {
                Some(span) => replacement_span(old(self)@, cursor as int) == Some(
                    (span.0 as int, span.1 as int),
                ),
                None => replacement_span(old(self)@, cursor as int) is None,
            },
    {
        match search::search(
            self.text.as_str(),
            self.pattern.as_str(),
            cursor,
            true,
            self.match_case,
        ) {
            None => {
                proof {
                    assert(final(self)@ =~= replacement_applied(old(self)@, cursor as int, replacement@));
                }
                None
            },
            Some((s, e)) => {
                let n = self.text.as_str().unicode_len();
                let prefix = self.text.as_str().substring_char(0, s);
                let mut new_text = prefix.to_owned();
                new_text.append(replacement);
                let suffix = self.text.as_str().substring_char(e, n);
                new_text.append(suffix);
                let previous = self.text.clone();
                self.text = new_text;
                self.history.record_edit(previous);
                self.dirty = true;
                proof {
                    assert(final(self)@.text =~= old(self)@.text.take(s as int) + replacement@
                        + old(self)@.text.skip(s as int + old(self)@.pattern.len() as int));
                    assert(final(self)@ =~= replacement_applied(old(self)@, cursor as int, replacement@));
                }
                Some((s, e))
            },
        }
    }

    /// What to do about a close request: close at once when clean, prompt
    /// for save, discard or cancel when dirty.
    pub fn request_close(&self) -> (r: CloseInstruction)
        ensures
            r == (if self@.dirty {
                CloseInstruction::PromptSaveDiscardCancel
            } else {
                CloseInstruction::CloseNow
            }),
    {
        if self.dirty {
            CloseInstruction::PromptSaveDiscardCancel
        } else {
            CloseInstruction::CloseNow
        }
    }

    /// The user chose to discard unsaved changes: the document is marked
    /// clean so that a retried close does not prompt again.
    pub fn discard_changes(&mut self)
        ensures
            final(self)@ == (SessionModel { dirty: false, ..old(self)@ }),
    {
        self.dirty = false;
        proof {
            assert(final(self)@ =~= (SessionModel { dirty: false, ..old(self)@ }));
        }
    }

    /// The committed text: what a save writes to disk.
    pub fn current_text(&self) -> (r: &String)
        ensures
            r@ == self@.text,
    {
        &self.text
    }

    /// The current destination path, if one is set.
    pub fn path(&self) -> (r: Option<&String>)
        ensures
            match r {
                Some(p) => self@.path == Some(p@),
                None => self@.path is None,
            },
    {
        match &self.path {
            Some(p) => Some(p),
            None => None,
        }
    }

    /// The current editing mode.
    pub fn mode(&self) -> (r: Mode)
        ensures
            r == self@.mode,
    {
        self.mode
    }

    /// Whether the committed text differs from the last persisted snapshot.
    pub fn is_dirty(&self) -> (r: bool)
        ensures
            r == self@.dirty,
    {
        self.dirty
    }

    /// Whether elevated-write mode is active (a credential is cached,
    /// expired or not).
    pub fn is_elevated(&self) -> (r: bool)
        ensures
            r == (self@.credential is Some),
    {
        self.credential.is_present()
    }

    /// The cached elevated-write secret, for feeding the escalation
    /// helper's input channel.
    pub fn credential_secret(&self) -> (r: Option<&String>)
        ensures
            match r {
                Some(s) => self@.credential matches Some(c) && s@ == c.0,
                None => self@.credential is None,
            },
    {
        self.credential.secret()
    }

    /// Number of edits available to undo.
    pub fn undo_depth(&self) -> (n: usize)
        ensures
            n == self@.undo.len(),
    {
        self.history.undo_depth()
    }

    /// Number of edits available to redo.
    pub fn redo_depth(&self) -> (n: usize)
        ensures
            n == self@.redo.len(),
    {
        self.history.redo_depth()
    }

    /// The last-used find pattern.
    pub fn search_pattern(&self) -> (r: &String)
        ensures
            r@ == self@.pattern,
    {
        &self.pattern
    }

    /// The last-used case sensitivity.
    pub fn search_match_case(&self) -> (r: bool)
        ensures
            r == self@.match_case,
    {
        self.match_case
    }

    /// The window title the shell should display: the destination (or a
    /// placeholder), an elevated-mode tag, and the mode.
    pub fn window_title(&self) -> (r: String)
        ensures
            r@ == title_spec(self@),
    {
        let mut t = "rpad - ".to_owned();
        match &self.path {
            Some(p) => t.append(p.as_str()),
            None => t.append("Untitled"),
        }
        if self.credential.is_present() {
            t.append(" [SUDO]");
        }
        match self.mode {
            Mode::Plain => t.append(" [Plain]"),
            Mode::Markup => t.append(" [Markdown]"),
        }
        proof {
            assert(t@ =~= title_spec(self@));
        }
        t
    }

    /// The default file name a save dialog should suggest, by mode.
    pub fn default_file_name(&self) -> (r: String)
        ensures
            self@.mode == Mode::Plain ==> r@ == "Untitled.txt"@,
            self@.mode == Mode::Markup ==> r@ == "Untitled.md"@,
    {
        match self.mode {
            Mode::Plain => "Untitled.txt".to_owned(),
            Mode::Markup => "Untitled.md".to_owned(),
        }
    }
}

/// The window title for a session in state `m`.
pub open spec fn title_spec(m: SessionModel) -> Seq<char> {
    "rpad - "@ + (match m.path {
        Some(p) => p,
        None => "Untitled"@,
    }) + (if m.credential is Some {
        " [SUDO]"@
    } else {
        Seq::<char>::empty()
    }) + (match m.mode {
        Mode::Plain => " [Plain]"@,
        Mode::Markup => " [Markdown]"@,
    })
}

/// How a mode-switch request was answered.
#[derive(Clone, Copy, Debug, PartialEq, Eq, Structural)]
pub enum SetModeOutcome {
    /// The requested mode was already current; nothing changed.
    AlreadySet,
    /// The document has content; nothing changed and the shell shows a
    /// warning.
    Rejected,
    /// The mode was updated; the shell re-applies syntax highlighting.
    Applied,
}

} // verus!
