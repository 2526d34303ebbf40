//! Cache for the elevated-write credential.
//!
//! The cache holds at most one secret together with its expiry instant, set
//! to a fixed five-minute window from the moment it is stored. No background
//! timer evicts the entry: expiry is checked lazily on next use. Validating
//! a candidate secret against the operating system is not done here — that
//! is an external probe whose boolean outcome the session receives as an
//! event.

use vstd::prelude::*;

verus! {

/// How long a stored credential stays valid, in seconds.
pub const CREDENTIAL_TTL_SECS: u64 = 300;

/// Whether a cache in state `m` accepts the clock reading `now`: an entry is
/// present and has not expired.
pub open spec fn valid_at(m: Option<(Seq<char>, u64)>, now: u64) -> bool {
    m matches Some(e) && now <= e.1
}

/// Holds an optional elevated-write credential with its expiry.
pub struct CredentialCache {
    entry: Option<(String, u64)>,
}

impl View for CredentialCache {
    type V = Option<(Seq<char>, u64)>;

    closed spec fn view(&self) -> Option<(Seq<char>, u64)> {
        match self.entry {
            Some((ref s, e)) => Some((s@, e)),
            None => None,
        }
    }
}

impl CredentialCache {
    /// An empty cache.
    pub fn new() -> (c: Self)
        ensures
            c@ is None,
    {
        CredentialCache { entry: None }
    }

    /// Store `secret`, valid for the fixed window starting at `now`.
    pub fn set(&mut self, secret: String, now: u64)
        requires
            now + CREDENTIAL_TTL_SECS <= u64::MAX,
        ensures
            final(self)@ == Some((secret@, (now + CREDENTIAL_TTL_SECS) as u64)),
    {
        self.entry = Some((secret, now + CREDENTIAL_TTL_SECS));
    }

    /// Drop the secret and its expiry immediately.
    pub fn clear(&mut self)
        ensures
            final(self)@ is None,
    {
        self.entry = None;
    }

    /// Whether a secret is stored at all, expired or not.
    pub fn is_present(&self) -> (r: bool)
        ensures
            r == (self@ is Some),
    {
        match &self.entry {
            Some(_) => true,
            None => false,
        }
    }

    /// Whether a secret is stored and `now` has not passed its expiry.
    pub fn is_valid(&self, now: u64) -> (r: bool)
        ensures
            r == valid_at(self@, now),
    {
        match &self.entry {
            Some((_, expires_at)) => now <= *expires_at,
            None => false,
        }
    }

    /// The stored secret, if one is present.
    pub fn secret(&self) -> (r: Option<&String>)
        ensures
            match r {
                Some(s) => self@ matches Some(e) && s@ == e.0,
                None => self@ is None,
            },
    {
        match &self.entry {
            Some((s, _)) => Some(s),
            None => None,
        }
    }
}

} // verus!
