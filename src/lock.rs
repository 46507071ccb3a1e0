//! Where the single-instance lock file lives.
//!
//! The lock itself is an OS advisory lock on that file, taken and released by
//! the caller; this module resolves the directory and names the file.
use vstd::prelude::*;

use std::path::PathBuf;

verus! {

#[verifier::external_type_specification]
#[verifier::external_body]
pub struct ExPathBuf(PathBuf);

/// Why the instance lock could not be had.
#[derive(Clone, Copy, PartialEq, Eq, Structural, Debug)]
pub enum LockError {
    /// Neither a runtime directory nor a cache directory could be resolved.
    NoLockDirectory,
    /// Another instance holds the lock.
    AlreadyRunning,
    /// The lock directory or file could not be created or opened.
    Io,
}

/// Relies on `dirs::runtime_dir`: the user's runtime directory
/// (`$XDG_RUNTIME_DIR` on Linux, none elsewhere), read from the environment.
#[verifier::external_body]
fn runtime_dir() -> (r: Option<PathBuf>) {
    dirs::runtime_dir()
}

/// Relies on `dirs::cache_dir`: the user's cache directory, read from the
/// environment.
#[verifier::external_body]
fn cache_dir() -> (r: Option<PathBuf>) {
    dirs::cache_dir()
}

/// The lock directory: the runtime directory if there is one, else the cache
/// directory, else an error.
pub fn select_lock_dir(runtime: Option<PathBuf>, cache: Option<PathBuf>) -> (r: Result<
    PathBuf,
    LockError,
>)
    ensures
        runtime is Some ==> r == Ok::<PathBuf, LockError>(runtime->0),
        runtime is None && cache is Some ==> r == Ok::<PathBuf, LockError>(cache->0),
        runtime is None && cache is None ==> r == Err::<PathBuf, LockError>(
            LockError::NoLockDirectory,
        ),
{
    match runtime {
        Some(d) => Ok(d),
        None => match cache {
            Some(d) => Ok(d),
            None => Err(LockError::NoLockDirectory),
        },
    }
}

/// Resolves the lock directory from the environment; the cache directory is
/// looked up only when there is no runtime directory.
pub fn lock_dir() -> (r: Result<PathBuf, LockError>)
    ensures
        r is Err ==> r == Err::<PathBuf, LockError>(LockError::NoLockDirectory),
{
    let runtime = runtime_dir();
    let cache = if runtime.is_none() {
        cache_dir()
    } else {
        None
    };
    select_lock_dir(runtime, cache)
}

/// The name of the lock file for `app_name`: `<app_name>.lock`.
pub fn lock_file_name(app_name: &str) -> (r: String)
    ensures
        r@ == app_name@ + ".lock"@,
{
    String::from_str(app_name).concat(".lock")
}

} // verus!
