//! The handshake between the server's thread and background tasks.
//!
//! An AMX belongs to the thread of the server. A background task may touch
//! it only inside a window that the server's thread opens on each tick: the
//! task takes the lock, waits until the thread is ready, does its work and
//! gives the lock back; the thread closes the window once it has the lock
//! itself. This module holds the decisions of that protocol as a state
//! machine; waiting and sleeping are left to the caller.
use vstd::prelude::*;

use crate::amx::Amx;
use crate::plugin::SampPlugin;
use crate::runtime::Runtime;

verus! {

/// Why a lock could not be taken without waiting.
#[derive(Debug, Clone, Copy, PartialEq, Eq, Structural)]
pub enum TryLockCause {
    /// A task panicked while it held the lock.
    Poisoned,
    /// Another task holds the lock.
    WouldBlock,
}

/// Why a background task did not get at its AMX.
#[derive(Debug, Clone, Copy, PartialEq, Eq, Structural)]
pub enum AmxLockError {
    /// The instance was unloaded in the meantime.
    AmxGone,
    /// A task panicked while it held the lock.
    PoisonError,
    /// The lock could not be taken without waiting.
    TryLockError(TryLockCause),
}

impl AmxLockError {
    /// The text that describes the error to a person.
    pub open spec fn spec_message(self) -> Seq<char> {
        match self {
            AmxLockError::AmxGone => "AMX instance is unloaded"@,
            AmxLockError::PoisonError => "poisoned lock: another task failed inside"@,
            AmxLockError::TryLockError(TryLockCause::Poisoned) => "poisoned lock: another task failed inside"@,
            AmxLockError::TryLockError(TryLockCause::WouldBlock) => "try_lock failed because the operation would block"@,
        }
    }

    /// The description of the error.
    pub fn message(&self) -> (text: String)
        ensures
            text@ == self.spec_message(),
    {
        let text: &str = match self {
            AmxLockError::AmxGone => "AMX instance is unloaded",
            AmxLockError::PoisonError => "poisoned lock: another task failed inside",
            AmxLockError::TryLockError(TryLockCause::Poisoned) => "poisoned lock: another task failed inside",
            AmxLockError::TryLockError(TryLockCause::WouldBlock) => "try_lock failed because the operation would block",
        };
        text.to_owned()
    }
}

/// What a `SampThread` is to a specification.
pub struct ThreadView {
    /// The server's thread has opened the window.
    pub ready: bool,
    /// Some task holds the lock.
    pub locked: bool,
    /// A task panicked while it held the lock, and the lock was not
    /// rebuilt since.
    pub poisoned: bool,
}

/// The proof that its holder has the lock. It is given back with `unlock`.
#[derive(Debug)]
pub struct Guard {
    token: (),
}

/// The state of the handshake.
#[derive(Debug)]
pub struct SampThread {
    ready: bool,
    locked: bool,
    poisoned: bool,
}

impl View for SampThread {
    type V = ThreadView;

    closed spec fn view(&self) -> ThreadView {
        ThreadView { ready: self.ready, locked: self.locked, poisoned: self.poisoned }
    }
}

impl SampThread {
    /// The handshake before the first tick: the window closed, the lock
    /// free and sound.
    pub fn new() -> (thread: SampThread)
        ensures
            thread@ == (ThreadView { ready: false, locked: false, poisoned: false }),
    {
        SampThread { ready: false, locked: false, poisoned: false }
    }

    /// Opens the window: background tasks that wait for the server's
    /// thread may go on.
    pub fn make_ready(&mut self)
        ensures
            final(self)@ == (ThreadView { ready: true, ..old(self)@ }),
    {
        self.ready = true;
    }

    /// Whether the window is open. A task that holds the lock waits until
    /// it is.
    pub fn is_ready(&self) -> (ready: bool)
        ensures
            ready == self@.ready,
    {
        self.ready
    }

    /// Whether some task holds the lock. Whoever wants the lock with
    /// `lock` or `wait_other_threads` waits until none does.
    pub fn is_locked(&self) -> (locked: bool)
        ensures
            locked == self@.locked,
    {
        self.locked
    }

    /// Takes the lock, which is free. A poisoned lock is not taken, and
    /// the error says so.
    pub fn lock(&mut self) -> (guard: Result<Guard, AmxLockError>)
        requires
            !old(self)@.locked,
        ensures
            old(self)@.poisoned ==> guard == Err::<Guard, AmxLockError>(
                AmxLockError::PoisonError,
            ) && final(self)@ == old(self)@,
            !old(self)@.poisoned ==> guard is Ok && final(self)@ == (ThreadView {
                locked: true,
                ..old(self)@
            }),
    {
        if self.poisoned {
            return Err(AmxLockError::PoisonError);
        }
        self.locked = true;
        Ok(Guard { token: () })
    }

    /// Takes the lock if that needs no waiting: a lock that another task
    /// holds is not waited for, and a poisoned lock is not taken.
    pub fn try_lock(&mut self) -> (guard: Result<Guard, AmxLockError>)
        ensures
            old(self)@.locked ==> guard == Err::<Guard, AmxLockError>(
                AmxLockError::TryLockError(TryLockCause::WouldBlock),
            ) && final(self)@ == old(self)@,
            !old(self)@.locked && old(self)@.poisoned ==> guard == Err::<Guard, AmxLockError>(
                AmxLockError::TryLockError(TryLockCause::Poisoned),
            ) && final(self)@ == old(self)@,
            !old(self)@.locked && !old(self)@.poisoned ==> guard is Ok && final(self)@
                == (ThreadView { locked: true, ..old(self)@ }),
    {
        if self.locked {
            return Err(AmxLockError::TryLockError(TryLockCause::WouldBlock));
        }
        if self.poisoned {
            return Err(AmxLockError::TryLockError(TryLockCause::Poisoned));
        }
        self.locked = true;
        Ok(Guard { token: () })
    }

    /// Gives the lock back. A task that panicked while it held the lock
    /// leaves it poisoned.
    pub fn unlock(&mut self, guard: Guard, panicked: bool)
        ensures
            final(self)@ == (ThreadView {
                locked: false,
                poisoned: old(self)@.poisoned || panicked,
                ..old(self)@
            }),
    {
        self.locked = false;
        if panicked {
            self.poisoned = true;
        }
    }

    /// Closes the window, once no background task holds the lock: the
    /// server's thread does not go on before the task at work is done. A
    /// poisoned lock is taken all the same and is rebuilt, so that a task
    /// that panicked does not block the tasks after it for good.
    pub fn wait_other_threads(&mut self)
        requires
            !old(self)@.locked,
        ensures
            final(self)@ == (ThreadView { ready: false, locked: false, poisoned: false }),
    {
        self.ready = false;
        if self.poisoned {
            self.poisoned = false;
        }
    }
}

/// One tick of the server's thread: it opens the window, and closes it
/// once the lock is free.
pub fn process(thread: &mut SampThread)
    requires
        !old(thread)@.locked,
    ensures
        final(thread)@ == (ThreadView { ready: false, locked: false, poisoned: false }),
{
    thread.make_ready();
    thread.wait_other_threads();
}

/// An AMX by its identity, for background tasks: it holds no reference to
/// the instance, which may be unloaded at any time.
#[derive(Debug, Clone, Copy, PartialEq, Eq, Structural)]
pub struct AsyncAmx {
    pub ident: usize,
}

impl AsyncAmx {
    /// The instance with the identity `ident`.
    pub fn new(ident: usize) -> (amx: AsyncAmx)
        ensures
            amx.ident == ident,
    {
        AsyncAmx { ident }
    }

    /// What taking the lock for this instance gives in the state `thread`
    /// with the registry `list`: the error, if any, and whether the lock is
    /// held afterwards.
    pub open spec fn lock_outcome(self, thread: ThreadView, list: Map<usize, Amx>) -> (
        Option<AmxLockError>,
        bool,
    ) {
        if thread.poisoned {
            (Some(AmxLockError::PoisonError), false)
        } else if !list.contains_key(self.ident) {
            (Some(AmxLockError::AmxGone), false)
        } else {
            (None, true)
        }
    }

    /// What trying the lock for this instance gives in the state `thread`
    /// with the registry `list`: the error, if any, and whether the lock is
    /// held afterwards.
    pub open spec fn try_lock_outcome(self, thread: ThreadView, list: Map<usize, Amx>) -> (
        Option<AmxLockError>,
        bool,
    ) {
        if thread.locked {
            (Some(AmxLockError::TryLockError(TryLockCause::WouldBlock)), true)
        } else if thread.poisoned {
            (Some(AmxLockError::TryLockError(TryLockCause::Poisoned)), false)
        } else if !list.contains_key(self.ident) {
            (Some(AmxLockError::AmxGone), false)
        } else {
            (None, true)
        }
    }

    /// Takes the lock, which is free, inside the open window, and looks
    /// the instance up. Fails with `PoisonError` where the lock is
    /// poisoned, and with `AmxGone`, the lock given back, where the
    /// instance is not loaded any more.
    pub fn lock<'a, P: SampPlugin>(&self, thread: &mut SampThread, rt: &'a Runtime<P>) -> (amx:
        Result<(Guard, &'a Amx), AmxLockError>)
        requires
            !old(thread)@.locked,
            old(thread)@.ready,
        ensures
            self.lock_outcome(old(thread)@, rt@.amx_list).0 is Some ==> amx == Err::<
                (Guard, &'a Amx),
                AmxLockError,
            >(self.lock_outcome(old(thread)@, rt@.amx_list).0->0),
            self.lock_outcome(old(thread)@, rt@.amx_list).0 is None ==> amx is Ok && *amx->Ok_0.1
                == rt@.amx_list[self.ident],
            final(thread)@ == (ThreadView {
                locked: self.lock_outcome(old(thread)@, rt@.amx_list).1,
                ..old(thread)@
            }),
    {
        let guard: Guard = match thread.lock() {
            Ok(guard) => guard,
            Err(error) => {
                return Err(error);
            },
        };
        match rt.get_amx(self.ident) {
            Some(amx) => Ok((guard, amx)),
            None => {
                thread.unlock(guard, false);
                Err(AmxLockError::AmxGone)
            },
        }
    }

    /// As `lock`, but a lock that another task holds is not waited for:
    /// the attempt fails with `TryLockError`.
    pub fn try_lock<'a, P: SampPlugin>(
        &self,
        thread: &mut SampThread,
        rt: &'a Runtime<P>,
    ) -> (amx: Result<(Guard, &'a Amx), AmxLockError>)
        requires
            old(thread)@.ready,
        ensures
            self.try_lock_outcome(old(thread)@, rt@.amx_list).0 is Some ==> amx == Err::<
                (Guard, &'a Amx),
                AmxLockError,
            >(self.try_lock_outcome(old(thread)@, rt@.amx_list).0->0),
            self.try_lock_outcome(old(thread)@, rt@.amx_list).0 is None ==> amx is Ok
                && *amx->Ok_0.1 == rt@.amx_list[self.ident],
            final(thread)@ == (ThreadView {
                locked: self.try_lock_outcome(old(thread)@, rt@.amx_list).1,
                ..old(thread)@
            }),
    {
        let guard: Guard = match thread.try_lock() {
            Ok(guard) => guard,
            Err(error) => {
                return Err(error);
            },
        };
        match rt.get_amx(self.ident) {
            Some(amx) => Ok((guard, amx)),
            None => {
                thread.unlock(guard, false);
                Err(AmxLockError::AmxGone)
            },
        }
    }
}

} // verus!
