//! Persistence outcomes and the process boundary of the privileged writer.
//!
//! The writer itself performs file I/O and spawns the privilege-escalation
//! helper, so it lives outside the session core; what is fixed here is the
//! decision content: the error taxonomy, how a helper invocation's outcome is
//! classified, and the exact argument lists and input line the helper is
//! given. The staging design guarantees the destination file is never
//! partially written: content goes to a staging file first and the helper
//! copies it over the destination.

use vstd::prelude::*;

verus! {

/// Why a write did not complete.
#[derive(Clone, Copy, Debug, PartialEq, Eq, Structural)]
pub enum WriteError {
    /// Ordinary file I/O failed on a direct (non-elevated) write.
    Io,
    /// The privilege-escalation helper could not be started.
    AuthFailed,
    /// The helper ran but exited without success.
    CopyFailed,
}

/// Why enabling or refreshing the elevated-write credential failed.
#[derive(Clone, Copy, Debug, PartialEq, Eq, Structural)]
pub enum AuthError {
    /// The candidate secret was rejected by the operating system's probe.
    Failed,
    /// The user declined to supply a secret.
    Cancelled,
}

/// Why a save did not complete. The document stays dirty and the file on
/// disk is unchanged in every one of these cases.
#[derive(Clone, Copy, Debug, PartialEq, Eq, Structural)]
pub enum SaveError {
    /// A credential refresh was required and the secret was rejected.
    AuthFailed,
    /// A credential refresh was required and the user cancelled the prompt.
    AuthCancelled,
    /// The write itself failed.
    Write(WriteError),
}

/// How a failed credential refresh surfaces from a save: the save aborts
/// before any file is touched.
pub fn save_error_of_auth(e: AuthError) -> (r: SaveError)
    ensures
        e == AuthError::Failed ==> r == SaveError::AuthFailed,
        e == AuthError::Cancelled ==> r == SaveError::AuthCancelled,
{
    match e {
        AuthError::Failed => SaveError::AuthFailed,
        AuthError::Cancelled => SaveError::AuthCancelled,
    }
}

/// Classify the outcome of an elevated-write helper invocation: a process
/// that could not be spawned, a process that exited without success, or
/// success.
pub fn classify_helper_outcome(spawned: bool, exit_success: bool) -> (r: Result<(), WriteError>)
    ensures
        !spawned ==> r == Err::<(), WriteError>(WriteError::AuthFailed),
        spawned && !exit_success ==> r == Err::<(), WriteError>(WriteError::CopyFailed),
        spawned && exit_success ==> r == Ok::<(), WriteError>(()),
{
    if !spawned {
        Err(WriteError::AuthFailed)
    } else if !exit_success {
        Err(WriteError::CopyFailed)
    } else {
        Ok(())
    }
}

/// Arguments for invoking the helper in validate-only mode: the secret is
/// read from standard input, credentials cached by the helper itself are
/// ignored, and nothing is executed.
pub fn validate_helper_args() -> (r: Vec<String>)
    ensures
        r@.len() == 3,
        r@[0]@ == "-S"@,
        r@[1]@ == "-v"@,
        r@[2]@ == "-k"@,
{
    let mut args: Vec<String> = Vec::new();
    args.push("-S".to_owned());
    args.push("-v".to_owned());
    args.push("-k".to_owned());
    args
}

/// Arguments for invoking the helper to copy the staging file over the
/// destination, with the secret read from standard input.
pub fn copy_helper_args(staging: &str, dest: &str) -> (r: Vec<String>)
    ensures
        r@.len() == 4,
        r@[0]@ == "-S"@,
        r@[1]@ == "cp"@,
        r@[2]@ == staging@,
        r@[3]@ == dest@,
{
    let mut args: Vec<String> = Vec::new();
    args.push("-S".to_owned());
    args.push("cp".to_owned());
    args.push(staging.to_owned());
    args.push(dest.to_owned());
    args
}

/// The line fed to the helper's standard input: the secret followed by a
/// newline.
pub fn secret_line(secret: &str) -> (r: String)
    ensures
        r@ == secret@ + "\n"@,
{
    let mut line = secret.to_owned();
    line.append("\n");
    line
}

/// Name of the fixed temporary staging file used by elevated writes.
pub fn staging_file_name() -> (r: String)
    ensures
        r@ == "rpad_sudo_save.tmp"@,
{
    "rpad_sudo_save.tmp".to_owned()
}

} // verus!
