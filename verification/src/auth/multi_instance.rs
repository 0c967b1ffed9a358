//! The singleton lock that the client uses to limit itself to one instance.
//! While this process holds it, several clients can run side by side.
//!
//! The lock is a resource of the system. This module decides when to ask for
//! it and when to give it back, and keeps the handle; the caller asks and
//! gives back.

use crate::error::{Failure, NexusError};
use vstd::prelude::*;
use vstd::string::*;

verus! {

/// The name of the lock, as the client itself knows it.
pub const MUTEX_NAME: &'static str = "ROBLOX_singletonMutex";

/// The two states of the lock, as seen from this process.
#[derive(Clone, Copy, Debug, PartialEq, Eq, Structural)]
pub enum LockState {
    Released,
    Held,
}

/// What the caller is to do with the system's lock.
#[derive(Clone, Copy, Debug, PartialEq, Eq, Structural)]
pub enum LockCommand {
    /// Nothing.
    Nothing,
    /// Try once to acquire the lock, without waiting, and report the outcome.
    Acquire,
    /// Release the lock and close this handle.
    Release(u64),
}

/// How an attempt to acquire the lock ended.
#[derive(Clone, Copy, Debug, PartialEq, Eq, Structural)]
pub enum AcquireOutcome {
    /// The lock is ours, under this handle.
    Granted(u64),
    /// Another process holds the lock.
    Busy,
    /// The system gave no handle at all.
    Unavailable,
}

/// What `enable` asks for in a state: nothing where the lock is held.
pub open spec fn enable_command(state: LockState) -> LockCommand {
    match state {
        LockState::Held => LockCommand::Nothing,
        LockState::Released => LockCommand::Acquire,
    }
}

/// The handle kept after an attempt: the one held before, else the one
/// granted, else none.
pub open spec fn handle_after(before: Option<u64>, outcome: AcquireOutcome) -> Option<u64> {
    match (before, outcome) {
        (Some(handle), _) => Some(handle),
        (None, AcquireOutcome::Granted(handle)) => Some(handle),
        (None, _) => None,
    }
}

/// What an attempt means to the caller: success, with a handle to release
/// where one was granted although the lock was held already, or the failure.
pub open spec fn attempt_result(before: Option<u64>, outcome: AcquireOutcome) -> Result<
    LockCommand,
    Failure,
> {
    match (before, outcome) {
        (Some(_), AcquireOutcome::Granted(surplus)) => Ok(LockCommand::Release(surplus)),
        (Some(_), _) => Ok(LockCommand::Nothing),
        (None, AcquireOutcome::Granted(_)) => Ok(LockCommand::Nothing),
        (None, AcquireOutcome::Busy) => Err(Failure::LaunchConflict),
        (None, AcquireOutcome::Unavailable) => Err(
            Failure::TransportFailure("Failed to create mutex"@),
        ),
    }
}

/// The state that goes with a handle.
pub open spec fn state_of(handle: Option<u64>) -> LockState {
    if handle is Some {
        LockState::Held
    } else {
        LockState::Released
    }
}

/// Enabling twice holds both times: once the lock is granted the state is
/// `Held`, a second `enable` asks for nothing, and whatever is reported then
/// leaves the state `Held` under the same handle.
pub proof fn lemma_enable_is_idempotent(handle: u64, later: AcquireOutcome)
    ensures
        enable_command(LockState::Released) == LockCommand::Acquire,
        state_of(handle_after(None, AcquireOutcome::Granted(handle))) == LockState::Held,
        enable_command(state_of(handle_after(None, AcquireOutcome::Granted(handle))))
            == LockCommand::Nothing,
        handle_after(handle_after(None, AcquireOutcome::Granted(handle)), later) == Some(handle),
        attempt_result(Some(handle), later) is Ok,
{
}

/// A lock that another process holds is a conflict: the attempt fails with
/// `LaunchConflict` and the state stays `Released`.
pub proof fn lemma_busy_is_conflict()
    ensures
        attempt_result(None, AcquireOutcome::Busy) == Err::<LockCommand, Failure>(
            Failure::LaunchConflict,
        ),
        state_of(handle_after(None, AcquireOutcome::Busy)) == LockState::Released,
{
}

/// The owner of the singleton lock. It is `Held` exactly while it keeps a
/// handle.
pub struct MultiInstanceManager {
    mutex_handle: Option<u64>,
    enabled: bool,
}

impl MultiInstanceManager {
    #[verifier::type_invariant]
    spec fn consistent(self) -> bool {
        self.enabled == (self.mutex_handle is Some)
    }

    /// The handle under which the lock is held, if it is.
    pub closed spec fn handle(&self) -> Option<u64> {
        self.mutex_handle
    }

    /// The state of the lock.
    pub open spec fn state(&self) -> LockState {
        state_of(self.handle())
    }

    /// A manager that holds nothing.
    pub fn new() -> (manager: Self)
        ensures
            manager.handle() is None,
    {
        Self { mutex_handle: None, enabled: false }
    }

    /// Whether the lock is held.
    pub open spec fn held(&self) -> bool {
        self.state() == LockState::Held
    }

    /// Whether the lock is held.
    #[verifier::when_used_as_spec(held)]
    pub fn is_enabled(&self) -> (held: bool)
        ensures
            held == self.held(),
    {
        proof {
            use_type_invariant(self);
        }
        self.enabled
    }

    /// Asks to hold the lock. Where it is held already there is nothing to
    /// do; otherwise the caller is to try to acquire it and report with
    /// `acquired`.
    pub fn enable(&self) -> (command: LockCommand)
        ensures
            command == enable_command(self.state()),
    {
        proof {
            use_type_invariant(self);
        }
        if self.enabled {
            LockCommand::Nothing
        } else {
            LockCommand::Acquire
        }
    }

    /// Takes the outcome of an attempt to acquire the lock.
    ///
    /// A grant makes the state `Held`; a lock held elsewhere is
    /// `LaunchConflict` and is not tried again. A manager that holds the lock
    /// already keeps its handle, and hands a second one back to be released.
    pub fn acquired(&mut self, outcome: AcquireOutcome) -> (result: Result<LockCommand, NexusError>)
        ensures
            final(self).handle() == handle_after(old(self).handle(), outcome),
            match result {
                Ok(command) => attempt_result(old(self).handle(), outcome) == Ok::<
                    LockCommand,
                    Failure,
                >(command),
                Err(error) => attempt_result(old(self).handle(), outcome) == Err::<
                    LockCommand,
                    Failure,
                >(error@),
            },
    {
        proof {
            use_type_invariant(&*self);
        }
        if self.enabled {
            return match outcome {
                AcquireOutcome::Granted(surplus) => Ok(LockCommand::Release(surplus)),
                _ => Ok(LockCommand::Nothing),
            };
        }
        match outcome {
            AcquireOutcome::Granted(handle) => {
                *self = Self { mutex_handle: Some(handle), enabled: true };
                Ok(LockCommand::Nothing)
            },
            AcquireOutcome::Busy => Err(NexusError::LaunchConflict),
            AcquireOutcome::Unavailable => Err(
                NexusError::TransportFailure(String::from_str("Failed to create mutex")),
            ),
        }
    }

    /// Gives the lock up: the state is `Released` afterwards, and the handle
    /// that was held is the caller's to release and close.
    pub fn disable(&mut self) -> (command: LockCommand)
        ensures
            final(self).handle() is None,
            command == match old(self).handle() {
                Some(handle) => LockCommand::Release(handle),
                None => LockCommand::Nothing,
            },
    {
        let held = self.mutex_handle;
        *self = Self { mutex_handle: None, enabled: false };
        match held {
            Some(handle) => LockCommand::Release(handle),
            None => LockCommand::Nothing,
        }
    }

    /// Gives the lock up where it is held, and asks for it where it is not.
    pub fn toggle(&mut self) -> (command: LockCommand)
        ensures
            final(self).handle() is None,
            command == match old(self).handle() {
                Some(handle) => LockCommand::Release(handle),
                None => LockCommand::Acquire,
            },
    {
        proof {
            use_type_invariant(&*self);
        }
        if self.enabled {
            self.disable()
        } else {
            LockCommand::Acquire
        }
    }
}

impl Default for MultiInstanceManager {
    fn default() -> (manager: Self)
        ensures
            manager.handle() is None,
    {
        Self::new()
    }
}

} // verus!
