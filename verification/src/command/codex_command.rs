use vstd::prelude::*;

verus! {

/// Why a session with the app-server failed: the command failed (whatever the shutdown that
/// followed it returned, which is kept), or the command succeeded and the shutdown failed.
#[allow(inconsistent_fields)]
#[derive(Debug)]
pub enum SessionError<E, S> {
    CommandFailed { source: E, shutdown_result: Result<(), S> },
    ShutdownFailed { source: S },
}

/// The outcome of a command run over an app-server connection that is shut down afterwards: a
/// failed command is reported first, with the shutdown result; a successful command reports a
/// failed shutdown; otherwise the command's result stands.
pub fn settle_session<T, E, S>(result: Result<T, E>, shutdown_result: Result<(), S>) -> (outcome: Result<T, SessionError<E, S>>)
    ensures
        result matches Err(error) ==> outcome matches Err(SessionError::CommandFailed { source, shutdown_result: kept })
            && source == error && kept == shutdown_result,
        result is Ok ==> (shutdown_result matches Err(error) ==> outcome matches Err(SessionError::ShutdownFailed { source })
            && source == error),
        shutdown_result is Ok ==> (result matches Ok(value) ==> outcome == Ok::<T, SessionError<E, S>>(value)),
{
    match result {
        Err(source) => Err(SessionError::CommandFailed { source, shutdown_result }),
        Ok(value) => match shutdown_result {
            Err(source) => Err(SessionError::ShutdownFailed { source }),
            Ok(()) => Ok(value),
        },
    }
}

} // verus!
