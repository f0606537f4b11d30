//! The owner process: it holds the files of one lock owner and locks them on request.
//!
//! The system ties locks to processes, so each lock owner gets a process of its own. The process
//! exits when it has not been used for a while and no file is registered with it.

use crate::error::{io_cvt, io_cvt_spec, report, reported, Errno, Error, ErrorKind, Reason};
use crate::messages::{
    Interrupt, LockCommand, Message, RemoveInterrupt, ReplyLockCommandData, Unregister,
};
use crate::table::{distance, first_free, IdTable};
use crate::types::{lock_is_read_back, LockAction, LockParams, RawLock, SystemCodes, Ttl};
use vstd::prelude::*;

verus! {

/// What an owner process knows.
#[verifier::ext_equal]
pub struct OwnerState {
    /// How many files keep the process from exiting.
    pub holders: nat,
    /// Whether the process has decided to exit.
    pub exited: bool,
    /// The file of each id.
    pub descriptors: Map<u64, u64>,
    /// The id at which the search for a new file's id starts.
    pub next_id: u64,
    /// The thread of each pending lock.
    pub interrupts: Map<u64, u64>,
    /// The id at which the search for a new pending lock's id starts.
    pub interrupt_next_id: u64,
}

impl OwnerState {
    /// Each registered file keeps the process from exiting, and a process that has decided to exit
    /// is kept by none.
    pub open spec fn consistent(self) -> bool {
        &&& self.descriptors.dom().finite()
        &&& self.descriptors.dom().len() <= self.holders
        &&& self.exited ==> self.holders == 0
    }

    /// Whether the process can exit.
    pub open spec fn can_exit(self) -> bool {
        self.holders == 0
    }
}

/// The shared state of an owner process. Files and threads go by tokens of the user's choice.
pub struct DaemonOwnerInner {
    holders: u64,
    exited: bool,
    descriptors: IdTable,
    interrupts: IdTable,
}

impl View for DaemonOwnerInner {
    type V = OwnerState;

    closed spec fn view(&self) -> OwnerState {
        OwnerState {
            holders: self.holders as nat,
            exited: self.exited,
            descriptors: self.descriptors@,
            next_id: self.descriptors.next_id(),
            interrupts: self.interrupts@,
            interrupt_next_id: self.interrupts.next_id(),
        }
    }
}

/// Whether `outcome` and `after` result from registering a file. `tracker` says whether the threads
/// that will lock the file can be tracked.
pub open spec fn registers(
    before: OwnerState,
    token: u64,
    tracker: Result<(), Error>,
    outcome: Result<u64, Error>,
    after: OwnerState,
) -> bool {
    if before.exited {
        outcome == Err::<u64, Error>(Error::Own(Reason::OwnerExited)) && after == before
    } else {
        match tracker {
            Err(error) => outcome == Err::<u64, Error>(error) && after == before,
            Ok(()) => outcome matches Ok(id) && {
                &&& first_free(before.descriptors, before.next_id, id)
                &&& distance(id, after.next_id) == 1
                &&& after == OwnerState {
                    holders: before.holders + 1,
                    descriptors: before.descriptors.insert(id, token),
                    next_id: after.next_id,
                    ..before
                }
            },
        }
    }
}

/// How the peer is told what became of a registration. A process that has decided to exit answers
/// like a closed connection, so that the peer looks for another one.
pub open spec fn registration_answer(outcome: Result<u64, Error>) -> Result<u64, Errno> {
    if outcome == Err::<u64, Error>(Error::Own(Reason::OwnerExited)) {
        Err(Errno::Pipe)
    } else {
        io_cvt_spec(outcome)
    }
}

/// Tells the peer what became of a registration.
fn answer_registration(outcome: Result<u64, Error>) -> (answer: Result<u64, Errno>)
    ensures
        answer == registration_answer(outcome),
{
    match outcome {
        Err(Error::Own(Reason::OwnerExited)) => Err(Errno::Pipe),
        _ => io_cvt(outcome),
    }
}

/// What unregistering a file comes to: its token, which must be released, or a failure.
pub open spec fn unregister_outcome(before: OwnerState, id: u64) -> Result<u64, Error> {
    if before.descriptors.contains_key(id) {
        Ok(before.descriptors[id])
    } else {
        Err(Error::Own(Reason::UnknownDescriptor))
    }
}

/// The state after a file was unregistered and before it is released.
pub open spec fn unregistered(before: OwnerState, id: u64) -> OwnerState {
    OwnerState { descriptors: before.descriptors.remove(id), ..before }
}

/// The state after an unregistered file was released.
pub open spec fn released(before: OwnerState) -> OwnerState {
    if before.descriptors.dom().len() < before.holders {
        OwnerState { holders: (before.holders - 1) as nat, ..before }
    } else {
        before
    }
}

/// The thread of a pending lock, or a failure.
pub open spec fn interrupt_outcome(before: OwnerState, id: u64) -> Result<u64, Error> {
    if before.interrupts.contains_key(id) {
        Ok(before.interrupts[id])
    } else {
        Err(Error::Own(Reason::UnknownInterrupt))
    }
}

/// The state after a pending lock was forgotten.
pub open spec fn forgotten(before: OwnerState, id: u64) -> OwnerState {
    OwnerState { interrupts: before.interrupts.remove(id), ..before }
}

/// Whether `id` and `after` result from remembering a pending lock.
pub open spec fn remembers(before: OwnerState, token: u64, id: u64, after: OwnerState) -> bool {
    &&& first_free(before.interrupts, before.interrupt_next_id, id)
    &&& distance(id, after.interrupt_next_id) == 1
    &&& after == OwnerState {
        interrupts: before.interrupts.insert(id, token),
        interrupt_next_id: after.interrupt_next_id,
        ..before
    }
}

/// How a lock command is performed.
#[derive(Debug, Clone, Copy, PartialEq, Eq, Structural)]
pub enum LockPlan {
    /// Not at all: this is the answer.
    Refuse(Errno),
    /// Ask the system for a lock that conflicts with `raw`.
    Query { token: u64, raw: RawLock },
    /// Set the lock `raw`, without waiting.
    Attempt { token: u64, raw: RawLock },
    /// Set the lock in a thread of its own, waiting if need be.
    Await { token: u64, params: LockParams },
}

/// Whether `plan` performs a lock command.
pub open spec fn plans(
    state: OwnerState,
    codes: SystemCodes,
    command: LockCommand,
    plan: LockPlan,
) -> bool {
    if !state.descriptors.contains_key(command.id) {
        plan == LockPlan::Refuse(reported(Error::Own(Reason::UnknownDescriptor)))
    } else {
        let file = state.descriptors[command.id];
        match command.action {
            LockAction::GetLockStatus => plan matches LockPlan::Query { token, raw } && token == file
                && command.params.described(codes, raw),
            LockAction::SetLockNonBlocking => plan matches LockPlan::Attempt { token, raw } && token
                == file && command.params.described(codes, raw),
            LockAction::SetLockBlocking => plan == LockPlan::Await {
                token: file,
                params: command.params,
            },
        }
    }
}

/// How a request is served.
#[derive(Debug)]
pub enum Service<F> {
    /// Give this answer.
    Answer(Result<(), Errno>),
    /// Stop the thread with this token, and then answer favourably.
    StopThread(u64),
    /// Drop the thread with this token, and answer favourably.
    DropThread(u64),
    /// Keep the file if the answer is favourable, and give the answer.
    Keep(F, Result<u64, Errno>),
    /// Stop the threads of the file with this token, wait until they have let go of it, release it,
    /// and then answer favourably.
    Release(u64),
    /// Perform a lock command.
    Lock(LockPlan),
}

/// Whether `service` and `after` result from a request. `token` is the token of the file, where the
/// request registers one, and `tracker` says whether its threads can be tracked.
pub open spec fn serves<F>(
    before: OwnerState,
    codes: SystemCodes,
    message: Message<F>,
    token: u64,
    tracker: Result<(), Error>,
    service: Service<F>,
    after: OwnerState,
) -> bool {
    match message {
        Message::Ping(_) => service == Service::<F>::Answer(Ok(())) && after == before,
        Message::Interrupt(interrupt) => after == before && service == match interrupt_outcome(
            before,
            interrupt.id,
        ) {
            Ok(thread) => Service::StopThread(thread),
            Err(error) => Service::<F>::Answer(Err(reported(error))),
        },
        Message::RemoveInterrupt(interrupt) => after == forgotten(before, interrupt.id) && service
            == match interrupt_outcome(before, interrupt.id) {
            Ok(thread) => Service::DropThread(thread),
            Err(error) => Service::<F>::Answer(Err(reported(error))),
        },
        Message::Register(register) => exists|outcome: Result<u64, Error>| #[trigger]
            registers(before, token, tracker, outcome, after) && service == Service::Keep(
                register.fd,
                registration_answer(outcome),
            ),
        Message::Unregister(unregister) => after == unregistered(before, unregister.id) && service
            == match unregister_outcome(before, unregister.id) {
            Ok(file) => Service::Release(file),
            Err(error) => Service::<F>::Answer(Err(reported(error))),
        },
        Message::LockCommand(command) => after == before && (service matches Service::Lock(plan)
            && plans(before, codes, command, plan)),
    }
}

impl DaemonOwnerInner {
    /// The state of a new owner process.
    pub fn new() -> (inner: DaemonOwnerInner)
        ensures
            inner@ == initial_state(),
            inner@.consistent(),
    {
        DaemonOwnerInner {
            holders: 0,
            exited: false,
            descriptors: IdTable::new(),
            interrupts: IdTable::new(),
        }
    }

    /// Keeps the process from exiting, unless it has already decided to.
    pub fn acquire_exit_lock(&mut self) -> (acquired: Result<(), Error>)
        requires
            old(self)@.consistent(),
            old(self)@.holders < u64::MAX,
        ensures
            acquired == (if old(self)@.exited {
                Err(Error::Own(Reason::OwnerExited))
            } else {
                Ok(())
            }),
            final(self)@ == (if old(self)@.exited {
                old(self)@
            } else {
                OwnerState { holders: old(self)@.holders + 1, ..old(self)@ }
            }),
            final(self)@.consistent(),
    {
        if self.exited {
            return Err(Error::Own(Reason::OwnerExited));
        }
        self.holders = self.holders + 1;
        Ok(())
    }

    /// Lets go of a file that has been unregistered, which no longer keeps the process from exiting.
    /// Nothing changes where there is no such file.
    pub fn release_exit_lock(&mut self)
        requires
            old(self)@.consistent(),
        ensures
            final(self)@ == released(old(self)@),
            final(self)@.consistent(),
    {
        if (self.descriptors.len() as u64) < self.holders {
            self.holders = self.holders - 1;
        }
    }

    /// How many files keep the process from exiting.
    pub fn holders(&self) -> (count: u64)
        ensures
            count == self@.holders,
    {
        self.holders
    }

    /// Decides to exit, unless a file keeps the process from it.
    pub fn try_exit(&mut self) -> (exited: Result<(), Error>)
        requires
            old(self)@.consistent(),
        ensures
            exited == (if old(self)@.can_exit() {
                Ok(())
            } else {
                Err(Error::Own(Reason::FilesRegistered))
            }),
            final(self)@ == (OwnerState {
                exited: old(self)@.exited || old(self)@.can_exit(),
                ..old(self)@
            }),
            final(self)@.consistent(),
    {
        if self.holders != 0 {
            return Err(Error::Own(Reason::FilesRegistered));
        }
        self.exited = true;
        Ok(())
    }

    /// Finds the thread of a pending lock, which is to be stopped.
    pub fn handle_interrupt(&self, interrupt: Interrupt) -> (thread: Result<u64, Error>)
        ensures
            thread == interrupt_outcome(self@, interrupt.id),
    {
        match self.interrupts.get(interrupt.id) {
            Some(thread) => Ok(thread),
            None => Err(Error::Own(Reason::UnknownInterrupt)),
        }
    }

    /// Remembers a pending lock, under an id that no other pending lock has.
    pub fn handle_interrupt_add(&mut self, token: u64) -> (id: u64)
        ensures
            remembers(old(self)@, token, id, final(self)@),
            old(self)@.consistent() ==> final(self)@.consistent(),
    {
        self.interrupts.allocate(token)
    }

    /// Forgets a pending lock.
    pub fn handle_interrupt_remove(&mut self, interrupt: RemoveInterrupt) -> (thread: Result<
        u64,
        Error,
    >)
        ensures
            thread == interrupt_outcome(old(self)@, interrupt.id),
            final(self)@ == forgotten(old(self)@, interrupt.id),
            old(self)@.consistent() ==> final(self)@.consistent(),
    {
        match self.interrupts.remove(interrupt.id) {
            Some(thread) => Ok(thread),
            None => Err(Error::Own(Reason::UnknownInterrupt)),
        }
    }

    /// Registers a file, under an id that no other registered file has. The file keeps the process
    /// from exiting.
    pub fn handle_fd_register(&mut self, token: u64, tracker: Result<(), Error>) -> (outcome: Result<
        u64,
        Error,
    >)
        requires
            old(self)@.consistent(),
            old(self)@.holders < u64::MAX,
        ensures
            registers(old(self)@, token, tracker, outcome, final(self)@),
            final(self)@.consistent(),
    {
        match self.acquire_exit_lock() {
            Ok(()) => {},
            Err(error) => return Err(error),
        }
        match tracker {
            Ok(()) => {},
            Err(error) => {
                self.release_exit_lock();
                return Err(error);
            },
        }
        Ok(self.descriptors.allocate(token))
    }

    /// Unregisters a file. It keeps the process from exiting until it is released.
    pub fn handle_fd_unregister(&mut self, unregister: Unregister) -> (file: Result<u64, Error>)
        requires
            old(self)@.consistent(),
        ensures
            file == unregister_outcome(old(self)@, unregister.id),
            final(self)@ == unregistered(old(self)@, unregister.id),
            final(self)@.consistent(),
            file is Ok ==> final(self)@.descriptors.dom().len() < final(self)@.holders,
    {
        match self.descriptors.remove(unregister.id) {
            Some(file) => Ok(file),
            None => {
                assert(self@.descriptors =~= old(self)@.descriptors);
                Err(Error::Own(Reason::UnknownDescriptor))
            },
        }
    }

    /// Decides how to perform a lock command.
    pub fn handle_lock_command(&self, codes: &SystemCodes, command: LockCommand) -> (plan: LockPlan)
        requires
            codes.well_formed(),
        ensures
            plans(self@, *codes, command, plan),
    {
        let token = match self.descriptors.get(command.id) {
            Some(token) => token,
            None => return LockPlan::Refuse(report(Error::Own(Reason::UnknownDescriptor))),
        };
        match command.action {
            LockAction::GetLockStatus => {
                LockPlan::Query { token, raw: command.params.to_raw(codes) }
            },
            LockAction::SetLockNonBlocking => {
                LockPlan::Attempt { token, raw: command.params.to_raw(codes) }
            },
            LockAction::SetLockBlocking => LockPlan::Await { token, params: command.params },
        }
    }

    /// Decides how to serve a request. `token` names the file, where the request registers one, and
    /// `tracker` says whether its threads can be tracked.
    pub fn serve<F>(
        &mut self,
        codes: &SystemCodes,
        message: Message<F>,
        token: u64,
        tracker: Result<(), Error>,
    ) -> (service: Service<F>)
        requires
            codes.well_formed(),
            old(self)@.consistent(),
            old(self)@.holders < u64::MAX,
        ensures
            serves(old(self)@, *codes, message, token, tracker, service, final(self)@),
            final(self)@.consistent(),
    {
        match message {
            Message::Ping(_) => Service::Answer(Ok(())),
            Message::Interrupt(interrupt) => match self.handle_interrupt(interrupt) {
                Ok(thread) => Service::StopThread(thread),
                Err(error) => Service::Answer(Err(report(error))),
            },
            Message::RemoveInterrupt(interrupt) => match self.handle_interrupt_remove(interrupt) {
                Ok(thread) => Service::DropThread(thread),
                Err(error) => Service::Answer(Err(report(error))),
            },
            Message::Register(register) => {
                let outcome = self.handle_fd_register(token, tracker);
                assert(registers(old(self)@, token, tracker, outcome, self@));
                Service::Keep(register.fd, answer_registration(outcome))
            },
            Message::Unregister(unregister) => match self.handle_fd_unregister(unregister) {
                Ok(file) => Service::Release(file),
                Err(error) => Service::Answer(Err(report(error))),
            },
            Message::LockCommand(command) => {
                Service::Lock(self.handle_lock_command(codes, command))
            },
        }
    }
}

/// What the receiving loop of an owner process does with what it received.
#[derive(Debug)]
pub enum Reception<F> {
    /// End, with this outcome.
    End(Result<(), Error>),
    /// Note that the process is in use, and receive again.
    Skip,
    /// Note that the process is in use, serve the request, and answer on the channel.
    Serve(Message<F>, F),
}

/// Decides what the receiving loop of an owner process does with what it received.
///
/// A closed socket ends the loop. Data that makes no sense is skipped. Any other failure ends the
/// loop as a failure.
pub fn owner_receiving_loop<F>(received: Result<(Message<F>, F), Error>) -> (reception: Reception<F>)
    ensures
        reception == (match received {
            Ok((message, reply)) => Reception::Serve(message, reply),
            Err(error) => match error.kind() {
                ErrorKind::BrokenPipe => Reception::End(Ok(())),
                ErrorKind::UnexpectedEof | ErrorKind::InvalidInput | ErrorKind::InvalidData => {
                    Reception::Skip
                },
                _ => Reception::End(Err(error)),
            },
        }),
{
    let error = match received {
        Ok((message, reply)) => return Reception::Serve(message, reply),
        Err(error) => error,
    };
    match error.kind() {
        ErrorKind::BrokenPipe => Reception::End(Ok(())),
        ErrorKind::UnexpectedEof => Reception::Skip,
        ErrorKind::InvalidInput => Reception::Skip,
        ErrorKind::InvalidData => Reception::Skip,
        _ => Reception::End(Err(error)),
    }
}

/// The answer to a lock command.
pub type LockAnswer = Result<ReplyLockCommandData, Errno>;

/// Whether `answer` reports the lock that the system describes.
pub open spec fn reports_lock(codes: SystemCodes, raw: RawLock, answer: LockAnswer) -> bool {
    exists|read: Result<LockParams, Error>| #[trigger]
        LockParams::means(codes, raw, read) && answer == match read {
            Ok(params) => Ok(ReplyLockCommandData::Done(params)),
            Err(error) => Err(reported(error)),
        }
}

/// The answer that reports the lock that the system describes.
fn report_lock(codes: &SystemCodes, raw: RawLock) -> (answer: LockAnswer)
    ensures
        reports_lock(*codes, raw, answer),
{
    let read = LockParams::from_raw(codes, raw);
    assert(LockParams::means(*codes, raw, read));
    match read {
        Ok(params) => Ok(ReplyLockCommandData::Done(params)),
        Err(error) => Err(report(error)),
    }
}

/// Answers a lock query with what the system found.
pub fn query_answer(codes: &SystemCodes, found: Result<RawLock, Error>) -> (answer: LockAnswer)
    ensures
        match found {
            Ok(raw) => reports_lock(*codes, raw, answer),
            Err(error) => answer == LockAnswer::Err(reported(error)),
        },
{
    match found {
        Ok(raw) => report_lock(codes, raw),
        Err(error) => Err(report(error)),
    }
}

/// Answers an attempt to set the lock `raw`.
pub fn attempt_answer(codes: &SystemCodes, raw: RawLock, outcome: Result<(), Error>) -> (answer:
    LockAnswer)
    ensures
        match outcome {
            Ok(()) => reports_lock(*codes, raw, answer),
            Err(error) => answer == LockAnswer::Err(reported(error)),
        },
{
    match outcome {
        Ok(()) => report_lock(codes, raw),
        Err(error) => Err(report(error)),
    }
}

/// The next step of a thread that sets a lock and waits for it.
#[derive(Debug, Clone, Copy, PartialEq, Eq, Structural)]
pub enum BlockingStep {
    /// Try to set the lock without waiting.
    Attempt,
    /// Let the signal through that interrupts the wait.
    Unblock,
    /// Set the lock, waiting.
    Wait,
    /// Nothing more.
    End,
}

/// The answer that ends an attempt to set a lock.
pub open spec fn final_answer(lock: LockParams, outcome: Result<(), Error>) -> LockAnswer {
    match outcome {
        Ok(()) => Ok(ReplyLockCommandData::Done(lock)),
        Err(error) => Err(reported(error)),
    }
}

/// Whether a thread that sets a lock answers with `answer` and goes on with `next` after a step with
/// an outcome. A lock that is held elsewhere is remembered as pending, under the thread's token.
pub open spec fn advances(
    before: OwnerState,
    codes: SystemCodes,
    lock: LockParams,
    token: u64,
    step: BlockingStep,
    outcome: Result<(), Error>,
    answer: Option<LockAnswer>,
    next: BlockingStep,
    after: OwnerState,
) -> bool {
    match step {
        BlockingStep::Attempt => next == BlockingStep::Unblock && if (outcome matches Err(error)
            && error.raw_os_error() == Some(codes.would_block)) {
            answer matches Some(Ok(ReplyLockCommandData::Pending(id))) && remembers(
                before,
                token,
                id,
                after,
            )
        } else {
            answer == Some(final_answer(lock, outcome)) && after == before
        },
        BlockingStep::Unblock => after == before && match outcome {
            Ok(()) => answer is None && next == BlockingStep::Wait,
            Err(_) => answer == Some(final_answer(lock, outcome)) && next == BlockingStep::End,
        },
        BlockingStep::Wait => {
            &&& answer == Some(final_answer(lock, outcome))
            &&& next == BlockingStep::End
            &&& after == before
        },
        BlockingStep::End => answer is None && next == BlockingStep::End && after == before,
    }
}

/// Decides what a thread that sets a lock, and waits for it if need be, answers after a step, and
/// what it does next.
pub fn set_lock_blocking(
    inner: &mut DaemonOwnerInner,
    codes: &SystemCodes,
    lock: LockParams,
    token: u64,
    step: BlockingStep,
    outcome: Result<(), Error>,
) -> (decision: (Option<LockAnswer>, BlockingStep))
    ensures
        advances(
            old(inner)@,
            *codes,
            lock,
            token,
            step,
            outcome,
            decision.0,
            decision.1,
            final(inner)@,
        ),
        old(inner)@.consistent() ==> final(inner)@.consistent(),
{
    match step {
        BlockingStep::Attempt => {
            let error = match outcome {
                Ok(()) => {
                    let answer: LockAnswer = Ok(ReplyLockCommandData::Done(lock));
                    return (Some(answer), BlockingStep::Unblock);
                },
                Err(error) => error,
            };
            match error.raw_os_error() {
                Some(number) => {
                    if number == codes.would_block {
                        let id = inner.handle_interrupt_add(token);
                        return (
                            Some(Ok(ReplyLockCommandData::Pending(id))),
                            BlockingStep::Unblock,
                        );
                    }
                },
                None => {},
            }
            (Some(Err(report(error))), BlockingStep::Unblock)
        },
        BlockingStep::Unblock => match outcome {
            Ok(()) => (None, BlockingStep::Wait),
            Err(error) => (Some(Err(report(error))), BlockingStep::End),
        },
        BlockingStep::Wait => match outcome {
            Ok(()) => (Some(Ok(ReplyLockCommandData::Done(lock))), BlockingStep::End),
            Err(error) => (Some(Err(report(error))), BlockingStep::End),
        },
        BlockingStep::End => (None, BlockingStep::End),
    }
}

/// What the main thread of an owner process waited for.
#[derive(Debug, Clone, Copy, PartialEq, Eq, Structural)]
pub enum TtlEvent {
    /// The process was used.
    Refreshed,
    /// The process was not used for its time to live. `finished` says whether the receiving thread
    /// has ended.
    TimedOut { finished: bool },
    /// The receiving thread let go of the process.
    Disconnected,
}

/// What the main thread of an owner process does next.
#[derive(Debug, Clone, Copy, PartialEq, Eq, Structural)]
pub enum TtlAction {
    /// Wait for its time to live.
    Continue,
    /// End with the outcome of the receiving thread.
    Join,
    /// End: the process is not in use.
    Exit,
}

/// What the main thread of an owner process does next.
pub open spec fn after_tick(state: OwnerState, event: TtlEvent) -> TtlAction {
    match event {
        TtlEvent::Refreshed => TtlAction::Continue,
        TtlEvent::Disconnected => TtlAction::Join,
        TtlEvent::TimedOut { finished } => if finished {
            TtlAction::Join
        } else if state.can_exit() {
            TtlAction::Exit
        } else {
            TtlAction::Continue
        },
    }
}

/// An owner process that waits for requests.
#[derive(Debug, Clone, Copy, PartialEq, Eq, Structural)]
pub struct DaemonOwner {
    /// How long the process outlives its last use.
    pub ttl: Ttl,
    /// Whether the process has started to receive requests.
    pub started: bool,
}

impl DaemonOwner {
    /// An owner process with this time to live, which has not started.
    pub fn new(ttl: Ttl) -> (owner: DaemonOwner)
        ensures
            owner == (DaemonOwner { ttl, started: false }),
    {
        DaemonOwner { ttl, started: false }
    }

    /// Starts the process. It starts only once.
    pub fn start(&mut self) -> (started: Result<(), Error>)
        ensures
            started == (if old(self).started {
                Err(Error::Own(Reason::AlreadyStarted))
            } else {
                Ok(())
            }),
            *final(self) == (DaemonOwner { ttl: old(self).ttl, started: true }),
    {
        if self.started {
            return Err(Error::Own(Reason::AlreadyStarted));
        }
        self.started = true;
        Ok(())
    }

    /// Decides whether the process goes on. It exits when it was not used for its time to live,
    /// unless a file is registered.
    pub fn tick(&self, inner: &mut DaemonOwnerInner, event: TtlEvent) -> (action: TtlAction)
        requires
            old(inner)@.consistent(),
        ensures
            action == after_tick(old(inner)@, event),
            final(inner)@ == (OwnerState {
                exited: old(inner)@.exited || action == TtlAction::Exit,
                ..old(inner)@
            }),
            final(inner)@.consistent(),
    {
        match event {
            TtlEvent::Refreshed => TtlAction::Continue,
            TtlEvent::Disconnected => TtlAction::Join,
            TtlEvent::TimedOut { finished } => {
                if finished {
                    return TtlAction::Join;
                }
                match inner.try_exit() {
                    Ok(()) => TtlAction::Exit,
                    Err(_) => TtlAction::Continue,
                }
            },
        }
    }

    /// The outcome of the process, from that of its receiving thread. There is none where the thread
    /// panicked.
    pub fn joined(outcome: Option<Result<(), Error>>) -> (result: Result<(), Error>)
        ensures
            result == (match outcome {
                Some(outcome) => outcome,
                None => Err(Error::Own(Reason::ThreadJoin)),
            }),
    {
        match outcome {
            Some(outcome) => outcome,
            None => Err(Error::Own(Reason::ThreadJoin)),
        }
    }
}

/// A registered file keeps its owner process from exiting, however long the process goes unused.
pub proof fn registered_file_keeps_owner(state: OwnerState, id: u64, event: TtlEvent)
    requires
        state.consistent(),
        state.descriptors.contains_key(id),
    ensures
        !state.exited,
        !state.can_exit(),
        after_tick(state, event) != TtlAction::Exit,
{
    if state.descriptors.dom().len() == 0 {
        assert(state.descriptors.dom() =~= Set::<u64>::empty());
    }
}

/// An owner process exits when it was not used for its time to live and no file is held there.
pub proof fn unused_owner_exits(state: OwnerState)
    requires
        state.holders == 0,
    ensures
        after_tick(state, TtlEvent::TimedOut { finished: false }) == TtlAction::Exit,
{
}

/// An owner process that has decided to exit holds no file and takes none: the peer is told of a
/// closed connection, and the decision stands.
pub proof fn exited_owner_takes_no_file(
    before: OwnerState,
    token: u64,
    tracker: Result<(), Error>,
    outcome: Result<u64, Error>,
    after: OwnerState,
)
    requires
        before.consistent(),
        before.exited,
        registers(before, token, tracker, outcome, after),
    ensures
        before.descriptors == Map::<u64, u64>::empty(),
        outcome == Err::<u64, Error>(Error::Own(Reason::OwnerExited)),
        registration_answer(outcome) == Err::<u64, Errno>(Errno::Pipe),
        after == before,
{
    assert(before.descriptors.dom() =~= Set::<u64>::empty());
    assert(before.descriptors =~= Map::<u64, u64>::empty());
}

/// Whatever an owner process is asked, it decides to exit on its own only.
pub proof fn serving_keeps_the_decision_to_exit<F>(
    before: OwnerState,
    codes: SystemCodes,
    message: Message<F>,
    token: u64,
    tracker: Result<(), Error>,
    service: Service<F>,
    after: OwnerState,
)
    requires
        serves(before, codes, message, token, tracker, service, after),
    ensures
        after.exited == before.exited,
{
}

/// The id under which a file was registered is new, finds the file, and leaves the ids of the other
/// files alone.
pub proof fn registered_file_is_found(
    before: OwnerState,
    token: u64,
    id: u64,
    after: OwnerState,
    other: u64,
)
    requires
        registers(before, token, Ok(()), Ok(id), after),
    ensures
        !before.descriptors.contains_key(id),
        unregister_outcome(after, id) == Ok::<u64, Error>(token),
        before.descriptors.contains_key(other) ==> unregister_outcome(after, other)
            == unregister_outcome(before, other),
{
}

/// A registered file stays registered until it is unregistered.
pub proof fn file_stays_registered<F>(
    before: OwnerState,
    codes: SystemCodes,
    message: Message<F>,
    token: u64,
    tracker: Result<(), Error>,
    service: Service<F>,
    after: OwnerState,
    id: u64,
)
    requires
        serves(before, codes, message, token, tracker, service, after),
        before.descriptors.contains_key(id),
        message != Message::<F>::Unregister(Unregister { id }),
    ensures
        after.descriptors.contains_key(id),
        after.descriptors[id] == before.descriptors[id],
{
}

/// A pending lock can be interrupted until it is forgotten.
pub proof fn lock_stays_pending<F>(
    before: OwnerState,
    codes: SystemCodes,
    message: Message<F>,
    token: u64,
    tracker: Result<(), Error>,
    service: Service<F>,
    after: OwnerState,
    id: u64,
)
    requires
        serves(before, codes, message, token, tracker, service, after),
        before.interrupts.contains_key(id),
        message != Message::<F>::RemoveInterrupt(RemoveInterrupt { id }),
    ensures
        interrupt_outcome(after, id) == interrupt_outcome(before, id),
        after.interrupts.contains_key(id),
{
}

/// Unregistering and releasing a file that has just been registered gives the owner process back
/// what it had. Only the id is not used again soon.
pub proof fn unregistering_undoes_registering(
    before: OwnerState,
    token: u64,
    id: u64,
    after: OwnerState,
)
    requires
        before.consistent(),
        registers(before, token, Ok(()), Ok(id), after),
    ensures
        released(unregistered(after, id)) == (OwnerState { next_id: after.next_id, ..before }),
{
    assert(unregistered(after, id).descriptors =~= before.descriptors);
}

/// A lock that was set as requested is answered with the request.
pub proof fn lock_set_is_lock_reported(
    codes: SystemCodes,
    params: LockParams,
    raw: RawLock,
    answer: LockAnswer,
)
    requires
        codes.well_formed(),
        params.described(codes, raw),
        reports_lock(codes, raw, answer),
    ensures
        answer == LockAnswer::Ok(ReplyLockCommandData::Done(params)),
{
    let read = choose|read: Result<LockParams, Error>| #[trigger]
        LockParams::means(codes, raw, read) && answer == match read {
            Ok(params) => Ok(ReplyLockCommandData::Done(params)),
            Err(error) => Err(reported(error)),
        };
    lock_is_read_back(codes, params, raw, read);
}

/// The id that a peer is given for a pending lock finds the thread that waits for the lock, and no
/// longer does once the lock has been forgotten.
pub proof fn pending_lock_is_found(
    before: OwnerState,
    codes: SystemCodes,
    lock: LockParams,
    token: u64,
    step: BlockingStep,
    outcome: Result<(), Error>,
    id: u64,
    next: BlockingStep,
    after: OwnerState,
)
    requires
        advances(
            before,
            codes,
            lock,
            token,
            step,
            outcome,
            Some(Ok(ReplyLockCommandData::Pending(id))),
            next,
            after,
        ),
    ensures
        !before.interrupts.contains_key(id),
        interrupt_outcome(after, id) == Ok::<u64, Error>(token),
        interrupt_outcome(forgotten(after, id), id) == Err::<u64, Error>(
            Error::Own(Reason::UnknownInterrupt),
        ),
        forgotten(after, id).interrupts == before.interrupts,
{
    assert(forgotten(after, id).interrupts =~= before.interrupts);
}

/// A lock that is waited for ends, and its last answer says whether it was set: by the wait, unless
/// the wait could not begin.
pub proof fn awaited_lock_ends(
    lock: LockParams,
    codes: SystemCodes,
    token: u64,
    states: (OwnerState, OwnerState, OwnerState, OwnerState),
    outcomes: (Result<(), Error>, Result<(), Error>, Result<(), Error>),
    answers: (Option<LockAnswer>, Option<LockAnswer>, Option<LockAnswer>),
    steps: (BlockingStep, BlockingStep, BlockingStep),
)
    requires
        advances(
            states.0,
            codes,
            lock,
            token,
            BlockingStep::Attempt,
            outcomes.0,
            answers.0,
            steps.0,
            states.1,
        ),
        advances(
            states.1,
            codes,
            lock,
            token,
            steps.0,
            outcomes.1,
            answers.1,
            steps.1,
            states.2,
        ),
        advances(
            states.2,
            codes,
            lock,
            token,
            steps.1,
            outcomes.2,
            answers.2,
            steps.2,
            states.3,
        ),
    ensures
        steps.2 == BlockingStep::End,
        answers.0 is Some,
        match outcomes.1 {
            Ok(()) => answers.1 is None && answers.2 == Some(final_answer(lock, outcomes.2)),
            Err(_) => answers.1 == Some(final_answer(lock, outcomes.1)) && answers.2 is None,
        },
{
}

/// The state of a new owner process.
pub open spec fn initial_state() -> OwnerState {
    OwnerState {
        holders: 0,
        exited: false,
        descriptors: Map::empty(),
        next_id: 0,
        interrupts: Map::empty(),
        interrupt_next_id: 0,
    }
}

/// Whether something that happens to an owner process takes it from `before` to `after`. `new_id` is
/// the id under which it registered a file, if it did.
pub open spec fn happens(before: OwnerState, new_id: Option<u64>, after: OwnerState) -> bool {
    match new_id {
        Some(id) => exists|token: u64, tracker: Result<(), Error>, outcome: Result<u64, Error>|
            #[trigger] registers(before, token, tracker, outcome, after) && outcome == Ok::<
                u64,
                Error,
            >(id),
        None => {
            ||| after == before
            ||| after == (OwnerState { holders: before.holders + 1, ..before })
            ||| after == released(before)
            ||| after == (OwnerState { exited: true, ..before })
            ||| exists|id: u64| after == #[trigger] unregistered(before, id)
            ||| exists|id: u64| after == #[trigger] forgotten(before, id)
            ||| exists|token: u64, id: u64| #[trigger] remembers(before, token, id, after)
        },
    }
}

/// The id that an owner process hands out when it serves a request.
pub open spec fn id_handed_out<F>(service: Service<F>) -> Option<u64> {
    match service {
        Service::Keep(_, Ok(id)) => Some(id),
        _ => None,
    }
}

/// Serving a request happens to an owner process, and the id of a new file is the one that the peer
/// is told.
pub proof fn serving_happens<F>(
    before: OwnerState,
    codes: SystemCodes,
    message: Message<F>,
    token: u64,
    tracker: Result<(), Error>,
    service: Service<F>,
    after: OwnerState,
)
    requires
        serves(before, codes, message, token, tracker, service, after),
    ensures
        happens(before, id_handed_out(service), after),
{
    match message {
        Message::Register(register) => {
            let outcome = choose|outcome: Result<u64, Error>| #[trigger]
                registers(before, token, tracker, outcome, after) && service == Service::Keep(
                    register.fd,
                    registration_answer(outcome),
                );
            assert(registers(before, token, tracker, outcome, after));
        },
        Message::Unregister(unregister) => {
            assert(after == unregistered(before, unregister.id));
        },
        Message::RemoveInterrupt(interrupt) => {
            assert(after == forgotten(before, interrupt.id));
        },
        _ => {},
    }
}

/// A step of a thread that sets a lock happens to an owner process, and hands out no id of a file.
pub proof fn locking_happens(
    before: OwnerState,
    codes: SystemCodes,
    lock: LockParams,
    token: u64,
    step: BlockingStep,
    outcome: Result<(), Error>,
    answer: Option<LockAnswer>,
    next: BlockingStep,
    after: OwnerState,
)
    requires
        advances(before, codes, lock, token, step, outcome, answer, next, after),
    ensures
        happens(before, None, after),
{
    if after != before {
        assert(exists|id: u64| #[trigger] remembers(before, token, id, after));
    }
}

/// A decision whether to go on happens to an owner process, and hands out no id of a file.
pub proof fn ticking_happens(before: OwnerState, event: TtlEvent)
    ensures
        happens(
            before,
            None,
            OwnerState {
                exited: before.exited || after_tick(before, event) == TtlAction::Exit,
                ..before
            },
        ),
{
}

/// Whether an owner process went through some states, handing out some ids on the way.
pub open spec fn lived_through(states: Seq<OwnerState>, new_ids: Seq<Option<u64>>) -> bool {
    &&& states.len() == new_ids.len() + 1
    &&& states[0] == initial_state()
    &&& forall|i: int|
        0 <= i < new_ids.len() ==> #[trigger] happens(states[i], new_ids[i], states[i + 1])
}

/// The ids that were handed out, in order.
pub open spec fn handed_out(new_ids: Seq<Option<u64>>) -> Seq<u64>
    decreases new_ids.len(),
{
    if new_ids.len() == 0 {
        Seq::empty()
    } else {
        match new_ids.last() {
            Some(id) => handed_out(new_ids.drop_last()).push(id),
            None => handed_out(new_ids.drop_last()),
        }
    }
}

/// While an owner process has registered no more files than there are ids, each got the next number
/// as its id.
proof fn ids_count_up(states: Seq<OwnerState>, new_ids: Seq<Option<u64>>)
    requires
        lived_through(states, new_ids),
        handed_out(new_ids).len() <= 0x1_0000_0000_0000_0000,
    ensures
        forall|k: int| 0 <= k < handed_out(new_ids).len() ==> #[trigger] handed_out(new_ids)[k] == k,
        forall|id: u64| #[trigger]
            states.last().descriptors.contains_key(id) ==> id < handed_out(new_ids).len(),
        handed_out(new_ids).len() < 0x1_0000_0000_0000_0000 ==> states.last().next_id == handed_out(
            new_ids,
        ).len(),
    decreases new_ids.len(),
{
    if new_ids.len() > 0 {
        let earlier_states = states.drop_last();
        let earlier = new_ids.drop_last();
        let last = earlier.len() as int;
        assert(lived_through(earlier_states, earlier)) by {
            assert forall|i: int| 0 <= i < earlier.len() implies #[trigger] happens(
                earlier_states[i],
                earlier[i],
                earlier_states[i + 1],
            ) by {
                assert(happens(states[i], new_ids[i], states[i + 1]));
            }
        }
        ids_count_up(earlier_states, earlier);
        assert(earlier_states.last() == states[last]);
        assert(happens(states[last], new_ids[last], states[last + 1]));
        match new_ids.last() {
            Some(id) => {
                assert(!states[last].descriptors.contains_key(states[last].next_id));
                assert(id == handed_out(earlier).len());
            },
            None => {
                assert(states.last().next_id == states[last].next_id);
                assert forall|id: u64| #[trigger]
                    states.last().descriptors.contains_key(id) implies states[last].descriptors.contains_key(
                    id,
                ) by {}
            },
        }
    }
}

/// An owner process hands out the ids of files in order, starting with zero, and none of them twice,
/// also where a file has been unregistered since. This holds as long as it registers no more files
/// than there are ids.
pub proof fn no_id_is_handed_out_twice(states: Seq<OwnerState>, new_ids: Seq<Option<u64>>)
    requires
        lived_through(states, new_ids),
        handed_out(new_ids).len() <= 0x1_0000_0000_0000_0000,
    ensures
        forall|k: int| 0 <= k < handed_out(new_ids).len() ==> #[trigger] handed_out(new_ids)[k] == k,
        handed_out(new_ids).no_duplicates(),
{
    ids_count_up(states, new_ids);
}

} // verus!
