//! Start and stop decisions of a server that serves on a thread of its own.
use vstd::prelude::*;

verus! {

/// Why a server cannot be started or stopped now.
#[derive(Debug, Clone, Copy, PartialEq, Eq, Structural)]
pub enum LifecycleError {
    NotStarted,
    AlreadyStopping,
    NotStopped,
    IsStopping,
}

/// The two flags that a server shares with its serving thread.
#[derive(Debug, Clone, Copy, PartialEq, Eq, Structural)]
pub struct ServerFlags {
    /// A stop has been asked for; the serving loop ends at its next turn.
    pub is_stopping: bool,
    /// No serving loop runs.
    pub is_stopped: bool,
}

impl ServerFlags {
    /// A server that has not been started.
    pub fn new() -> (r: ServerFlags)
        ensures
            r == (ServerFlags { is_stopping: false, is_stopped: true }),
    {
        ServerFlags { is_stopping: false, is_stopped: true }
    }

    /// Starting: refused while a stop is under way or a loop still runs;
    /// otherwise the loop runs from now on.
    pub fn start(self) -> (r: Result<ServerFlags, LifecycleError>)
        ensures
            self.is_stopping ==> r == Err::<ServerFlags, LifecycleError>(LifecycleError::IsStopping),
            !self.is_stopping && !self.is_stopped ==> r == Err::<ServerFlags, LifecycleError>(
                LifecycleError::NotStopped,
            ),
            !self.is_stopping && self.is_stopped ==> r == Ok::<ServerFlags, LifecycleError>(
                ServerFlags { is_stopping: false, is_stopped: false },
            ),
    {
        if self.is_stopping {
            return Err(LifecycleError::IsStopping);
        }
        if !self.is_stopped {
            return Err(LifecycleError::NotStopped);
        }
        Ok(ServerFlags { is_stopping: false, is_stopped: false })
    }

    /// Asking to stop: refused when no loop runs or a stop is already under
    /// way; otherwise the loop is told to end.
    pub fn request_stop(self) -> (r: Result<ServerFlags, LifecycleError>)
        ensures
            self.is_stopped ==> r == Err::<ServerFlags, LifecycleError>(LifecycleError::NotStarted),
            !self.is_stopped && self.is_stopping ==> r == Err::<ServerFlags, LifecycleError>(
                LifecycleError::AlreadyStopping,
            ),
            !self.is_stopped && !self.is_stopping ==> r == Ok::<ServerFlags, LifecycleError>(
                ServerFlags { is_stopping: true, is_stopped: false },
            ),
    {
        if self.is_stopped {
            return Err(LifecycleError::NotStarted);
        }
        if self.is_stopping {
            return Err(LifecycleError::AlreadyStopping);
        }
        Ok(ServerFlags { is_stopping: true, is_stopped: false })
    }

    /// The serving loop has ended.
    pub fn finished(self) -> (r: ServerFlags)
        ensures
            r == (ServerFlags { is_stopping: self.is_stopping, is_stopped: true }),
    {
        ServerFlags { is_stopping: self.is_stopping, is_stopped: true }
    }
}

} // verus!
