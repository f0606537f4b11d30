//! The user's side of an owner process: files that can be locked, and the locks on them.
//!
//! A call to an owner process is a request, an answer, and what the user is told. The functions
//! here compose the requests and judge the answers.

use crate::error::{Errno, Error, ErrorKind, Reason};
use crate::messages::{
    Interrupt, LockCommand, Ping, Register, RemoveInterrupt, ReplyLockCommandData, Unregister,
};
use crate::types::{LockAction, LockParams};
use vstd::prelude::*;

verus! {

/// The answer to a request: that of the peer, unless there was a failure on the way.
pub type Reply<T> = Result<Result<T, Error>, Error>;

/// What an answer comes to, whichever side failed.
pub open spec fn flattened<T>(reply: Reply<T>) -> Result<T, Error> {
    match reply {
        Ok(inner) => inner,
        Err(error) => Err(error),
    }
}

/// What an answer comes to, whichever side failed.
pub fn flatten<T>(reply: Reply<T>) -> (outcome: Result<T, Error>)
    ensures
        outcome == flattened(reply),
{
    match reply {
        Ok(inner) => inner,
        Err(error) => Err(error),
    }
}

/// The user's side of an owner process, which goes by a token of the user's choice.
#[derive(Debug, Clone, Copy, PartialEq, Eq, Structural)]
pub struct Owner {
    pub token: u64,
}

impl Owner {
    /// The request that finds out whether the owner process is alive.
    pub fn ping_request(&self) -> (request: Ping)
        ensures
            request == (Ping {  }),
    {
        Ping {  }
    }

    /// Whether the owner process is alive, by its answer.
    pub fn ping(&self, reply: Reply<()>) -> (outcome: Result<(), Error>)
        ensures
            outcome == flattened(reply),
    {
        flatten(reply)
    }

    /// The request that registers a file.
    pub fn register_request<F>(&self, fd: F) -> (request: Register<F>)
        ensures
            request == (Register { fd }),
    {
        Register { fd }
    }

    /// The file that was registered, by the owner process's answer. A process that has decided to
    /// exit is told apart.
    pub fn register(&self, reply: Reply<u64>) -> (lockable: Result<Lockable, Error>)
        ensures
            lockable == registered(*self, reply),
    {
        match reply {
            Ok(Ok(id)) => Ok(Lockable { owner: self.token, id }),
            Ok(Err(error)) => {
                if error.raw_os_error() == Some(Errno::Pipe.raw_os_error()) {
                    Err(Error::Own(Reason::OwnerExited))
                } else {
                    Err(error)
                }
            },
            Err(error) => Err(error),
        }
    }
}

/// Whether a failure is how an owner process says that it has decided to exit.
pub open spec fn says_exited(error: Error) -> bool {
    error.raw_os_error() == Some(32i32)
}

/// What an owner process's answer to a registration comes to.
pub open spec fn registered(owner: Owner, reply: Reply<u64>) -> Result<Lockable, Error> {
    match reply {
        Ok(Ok(id)) => Ok(Lockable { owner: owner.token, id }),
        Ok(Err(error)) => if says_exited(error) {
            Err(Error::Own(Reason::OwnerExited))
        } else {
            Err(error)
        },
        Err(error) => Err(error),
    }
}

/// A file that can be locked. Letting go of it removes its locks and interrupts its pending locks.
#[derive(Debug, Clone, Copy, PartialEq, Eq, Structural)]
pub struct Lockable {
    /// The token of the owner process that holds the file.
    pub owner: u64,
    /// The id of the file there.
    pub id: u64,
}

/// What a command that never waits comes to. `pending` is the failure where the peer claims that it
/// does.
pub open spec fn settled(reply: Reply<ReplyLockCommandData>, pending: Reason) -> Result<
    LockParams,
    Error,
> {
    match flattened(reply) {
        Ok(ReplyLockCommandData::Done(params)) => Ok(params),
        Ok(ReplyLockCommandData::Pending(_)) => Err(Error::Own(pending)),
        Err(error) => Err(error),
    }
}

/// What a command that never waits comes to.
fn settle(reply: Reply<ReplyLockCommandData>, pending: Reason) -> (outcome: Result<
    LockParams,
    Error,
>)
    ensures
        outcome == settled(reply, pending),
{
    match flatten(reply) {
        Ok(ReplyLockCommandData::Done(params)) => Ok(params),
        Ok(ReplyLockCommandData::Pending(_)) => Err(Error::Own(pending)),
        Err(error) => Err(error),
    }
}

impl Lockable {
    /// The command that looks for a lock, sets one, or waits to set one.
    pub fn command(&self, action: LockAction, params: LockParams) -> (command: LockCommand)
        ensures
            command == (LockCommand { id: self.id, action, params }),
    {
        LockCommand { id: self.id, action, params }
    }

    /// The lock that a query found, by the answer to `LockAction::GetLockStatus`.
    pub fn get_lock(&self, reply: Reply<ReplyLockCommandData>) -> (outcome: Result<
        LockParams,
        Error,
    >)
        ensures
            outcome == settled(reply, Reason::GetLockPending),
    {
        settle(reply, Reason::GetLockPending)
    }

    /// The lock that was set, by the answer to `LockAction::SetLockNonBlocking`.
    pub fn set_lock_nonblocking(&self, reply: Reply<ReplyLockCommandData>) -> (outcome: Result<
        LockParams,
        Error,
    >)
        ensures
            outcome == settled(reply, Reason::SetLockPending),
    {
        settle(reply, Reason::SetLockPending)
    }

    /// Goes on with a lock that may have to be waited for, by the first answer to
    /// `LockAction::SetLockBlocking`.
    pub fn set_lock_blocking(&self, next: Option<Reply<ReplyLockCommandData>>) -> (after: AfterFirst)
        ensures
            after == after_first(next),
    {
        let reply = match next {
            Some(reply) => reply,
            None => return AfterFirst::Return(Err(Error::Own(Reason::BlockingLockClosed))),
        };
        match flatten(reply) {
            Ok(ReplyLockCommandData::Done(params)) => AfterFirst::Return(Ok(params)),
            Ok(ReplyLockCommandData::Pending(id)) => AfterFirst::Wait(Interruptable::new(id)),
            Err(error) => AfterFirst::Return(Err(error)),
        }
    }

    /// Decides whether a detached lock is requested at all. `pre` says whether its user has taken
    /// the handle that interrupts it. If not, the failure is what the user is told in the end.
    pub fn set_lock_blocking_detached(&self, pre: Result<(), Error>) -> (next: AfterPre)
        ensures
            next == (match pre {
                Ok(()) => AfterPre::Lock,
                Err(error) => AfterPre::Invoke(Err(error)),
            }),
    {
        match pre {
            Ok(()) => AfterPre::Lock,
            Err(error) => AfterPre::Invoke(Err(error)),
        }
    }

    /// The request that lets go of the file.
    pub fn unregistration(&self) -> (request: Unregister)
        ensures
            request == (Unregister { id: self.id }),
    {
        Unregister { id: self.id }
    }
}

/// How a detached lock goes on once its user has been handed the means to interrupt it.
#[derive(Debug, Clone, Copy, PartialEq, Eq)]
pub enum AfterPre {
    /// Set the lock, waiting for it, and tell the user the outcome.
    Lock,
    /// Tell the user this outcome.
    Invoke(Result<LockParams, Error>),
}

/// How a lock that may have to be waited for goes on after the first answer.
#[derive(Debug, Clone, Copy, PartialEq, Eq)]
pub enum AfterFirst {
    /// Tell the user this outcome.
    Return(Result<LockParams, Error>),
    /// Wait for the next answer, letting the interrupting signal through.
    Wait(Interruptable),
}

/// How a lock that may have to be waited for goes on after the first answer.
pub open spec fn after_first(next: Option<Reply<ReplyLockCommandData>>) -> AfterFirst {
    match next {
        None => AfterFirst::Return(Err(Error::Own(Reason::BlockingLockClosed))),
        Some(reply) => match flattened(reply) {
            Ok(ReplyLockCommandData::Done(params)) => AfterFirst::Return(Ok(params)),
            Ok(ReplyLockCommandData::Pending(id)) => AfterFirst::Wait(Interruptable { id }),
            Err(error) => AfterFirst::Return(Err(error)),
        },
    }
}

/// A pending lock, which the owner process knows by its id until it is told to forget it.
#[derive(Debug, Clone, Copy, PartialEq, Eq, Structural)]
pub struct Interruptable {
    pub id: u64,
}

/// How a pending lock goes on after a wait.
#[derive(Debug, Clone, Copy, PartialEq, Eq)]
pub enum AfterWait {
    /// Send this request, and judge its answer.
    Interrupt(Interruptable, Interrupt),
    /// Tell the owner process to forget the pending lock, and the user this outcome.
    Return(RemoveInterrupt, Result<LockParams, Error>),
}

/// How a pending lock goes on after the owner process was told to interrupt it.
#[derive(Debug, Clone, Copy, PartialEq, Eq)]
pub enum AfterInterrupt {
    /// Wait for the next answer, letting the interrupting signal through.
    Wait(Interruptable),
    /// Tell the owner process to forget the pending lock, and the user this outcome.
    Return(RemoveInterrupt, Result<LockParams, Error>),
}

/// What a wait for the next answer yields. It fails as a whole where the interrupting signal cannot
/// be let through.
pub type Waited = Result<Option<Reply<ReplyLockCommandData>>, Error>;

/// Whether a wait was cut short by a signal, before an answer arrived.
pub open spec fn cut_short(waited: Waited) -> bool {
    waited matches Ok(Some(Err(error))) && error.kind() == ErrorKind::Interrupted
}

/// What a wait that was not cut short comes to.
pub open spec fn wait_outcome(waited: Waited) -> Result<LockParams, Error> {
    match waited {
        Err(error) => Err(error),
        Ok(None) => Err(Error::Own(Reason::BlockingLockClosed)),
        Ok(Some(reply)) => settled(reply, Reason::SetLockWaitPendingTwice),
    }
}

impl Interruptable {
    /// A pending lock that the owner process knows by this id.
    pub fn new(id: u64) -> (pending: Interruptable)
        ensures
            pending == (Interruptable { id }),
    {
        Interruptable { id }
    }

    /// The request that makes the owner process forget the pending lock.
    pub fn removal(self) -> (request: RemoveInterrupt)
        ensures
            request == (RemoveInterrupt { id: self.id }),
    {
        RemoveInterrupt { id: self.id }
    }

    /// Goes on after a wait. A signal during the wait interrupts the lock in the owner process,
    /// whose answer then ends the lock.
    pub fn waited(self, waited: Waited) -> (after: AfterWait)
        ensures
            after == (if cut_short(waited) {
                AfterWait::Interrupt(self, Interrupt { id: self.id })
            } else {
                AfterWait::Return(RemoveInterrupt { id: self.id }, wait_outcome(waited))
            }),
    {
        let next = match waited {
            Ok(next) => next,
            Err(error) => return AfterWait::Return(self.removal(), Err(error)),
        };
        let reply = match next {
            Some(reply) => reply,
            None => return AfterWait::Return(
                self.removal(),
                Err(Error::Own(Reason::BlockingLockClosed)),
            ),
        };
        match reply {
            Err(error) => if error.kind() == ErrorKind::Interrupted {
                AfterWait::Interrupt(self, Interrupt { id: self.id })
            } else {
                AfterWait::Return(self.removal(), Err(error))
            },
            Ok(_) => AfterWait::Return(
                self.removal(),
                settle(reply, Reason::SetLockWaitPendingTwice),
            ),
        }
    }

    /// Goes on after the owner process was told to interrupt the lock.
    pub fn interrupted(self, reply: Reply<()>) -> (after: AfterInterrupt)
        ensures
            after == (match flattened(reply) {
                Ok(()) => AfterInterrupt::Wait(self),
                Err(error) => AfterInterrupt::Return(RemoveInterrupt { id: self.id }, Err(error)),
            }),
    {
        match flatten(reply) {
            Ok(()) => AfterInterrupt::Wait(self),
            Err(error) => AfterInterrupt::Return(self.removal(), Err(error)),
        }
    }
}

/// A callback that is told the outcome of a detached lock, once.
pub struct Invoker<F> {
    inner: Option<F>,
}

impl<F> View for Invoker<F> {
    type V = Option<F>;

    /// The callback, unless it has been called.
    closed spec fn view(&self) -> Option<F> {
        self.inner
    }
}

impl<F: FnOnce(Result<LockParams, Error>)> Invoker<F> {
    /// A callback that has not been called.
    pub fn new(item: F) -> (invoker: Invoker<F>)
        ensures
            invoker@ == Some(item),
    {
        Invoker { inner: Some(item) }
    }

    /// Calls the callback, unless it has been called.
    pub fn invoke(&mut self, outcome: Result<LockParams, Error>)
        requires
            old(self)@ matches Some(callback) ==> call_requires(callback, (outcome,)),
        ensures
            final(self)@ is None,
            old(self)@ matches Some(callback) ==> call_ensures(callback, (outcome,), ()),
    {
        match self.inner.take() {
            Some(callback) => callback(outcome),
            None => {},
        }
    }

    /// Lets go of the callback. A callback that has not been called by now is told of a panic.
    pub fn release(self)
        requires
            self@ matches Some(callback) ==> call_requires(
                callback,
                (Err::<LockParams, Error>(Error::Own(Reason::ThreadPanicked)),),
            ),
        ensures
            self@ matches Some(callback) ==> call_ensures(
                callback,
                (Err::<LockParams, Error>(Error::Own(Reason::ThreadPanicked)),),
                (),
            ),
    {
        let mut invoker = self;
        invoker.invoke(Err(Error::Own(Reason::ThreadPanicked)));
    }
}

} // verus!
