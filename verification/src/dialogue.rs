//! What holds of a user and an owner process that talk to each other.
//!
//! The laws here follow a request from one side to the other and the answer back. They leave open
//! what the system does in between.

use crate::client::{
    after_first, cut_short, flattened, registered, settled, wait_outcome, AfterFirst, Interruptable,
    Lockable, Owner, Reply, Waited,
};
use crate::error::{reported, Errno, Error, Reason};
use crate::frame::{
    frame_is_received, frame_size_is_received, has_other, header_bytes, is_whole, rights, AfterPeek,
    AfterRead, Ancillary, Peek, Read, HEADER_SIZE,
};
use crate::manager::{
    after_look_up, after_register, changed, exited_owner_is_replaced, AfterRegister, Change,
    ManagerState, Search, SearchStep,
};
use crate::messages::{
    answer_is_received, answers, asks, carries, request_is_received, Interrupt, Item, LockCommand,
    Message, Payload, Register, RemoveInterrupt, ReplyLockCommandData, Replyable,
    RequestSpawnOwner, Serializable, Unregister,
};
use crate::owner::{
    advances, lock_set_is_lock_reported, plans, registers, registration_answer, reports_lock, serves,
    BlockingStep, LockAnswer, LockPlan, OwnerState, Service,
};
use crate::types::{LockAction, LockParams, RawLock, SystemCodes};
use vstd::prelude::*;

verus! {

/// A request that goes over a socket arrives as it was sent, with its reply channel: the receiver
/// peeks at the start of the frame, reads the frame, and reads the request.
pub proof fn sent_request_arrives<R: Serializable<F>, F>(
    request: R,
    oneshot: F,
    payload: Vec<u8>,
    fds: Seq<F>,
    header: [u8; 16],
    peek: Peek,
    read: Read,
    count: usize,
    control: Vec<Ancillary<F>>,
    next: AfterRead<F>,
    received: Result<(R, F), Error>,
)
    requires
        request.payload().sendable(),
        payload@ == request.payload().bytes(),
        fds == seq![oneshot] + request.descriptors(),
        fds.len() <= usize::MAX,
        header@ == header_bytes(payload@.len() as u64, fds.len() as u64),
        peek.spec_peeked(Ok((HEADER_SIZE, header))) == AfterPeek::Go(read),
        is_whole(count, read.bytes),
        !has_other(control@),
        rights(control@) == fds,
        read.follows(Ok((count, payload, control)), next),
        next matches AfterRead::Done(bytes, descriptors) ==> asks(bytes@, descriptors@, received),
    ensures
        received == Ok::<(R, F), Error>((request, oneshot)),
{
    frame_size_is_received(peek, payload.len(), fds.len() as usize, header);
    frame_is_received(read, payload, control, fds, count, next);
    request_is_received(request, oneshot, received);
}

/// An answer as its user gets it: `failure` says which failure each number stands for.
pub open spec fn heard<T, F>(item: Item<T, F>, failure: spec_fn(i32) -> Error) -> Option<Reply<T>> {
    match item {
        None => None,
        Some(Err(error)) => Some(Err(error)),
        Some(Ok(Err(number))) => Some(Ok(Err(failure(number)))),
        Some(Ok(Ok((value, _)))) => Some(Ok(Ok(value))),
    }
}

/// The answer of an owner process reaches the user: a value as it was given, and a failure as what
/// its number stands for.
pub proof fn answer_is_heard<R: Replyable, F>(
    message: Result<R::Type, Errno>,
    bytes: Seq<u8>,
    fds: Vec<F>,
    item: Item<R::Type, F>,
    failure: spec_fn(i32) -> Error,
)
    requires
        carries(bytes, message),
        answers::<R, F>(bytes, fds, item),
    ensures
        heard(item, failure) matches Some(reply) && match message {
            Ok(value) => flattened(reply) == Ok::<R::Type, Error>(value),
            Err(errno) => exists|number: i32|
                errno.numbered(number) && flattened(reply) == Err::<R::Type, Error>(
                    #[trigger] failure(number),
                ),
        },
{
    answer_is_received::<R, F>(message, bytes, fds, item);
}

/// A failure that the system reported to an owner process is reported to the user under the same
/// number.
pub proof fn system_failure_is_heard<R: Replyable, F>(
    error: Error,
    bytes: Seq<u8>,
    fds: Vec<F>,
    item: Item<R::Type, F>,
    failure: spec_fn(i32) -> Error,
)
    requires
        error.raw_os_error() is Some,
        carries(bytes, Err::<R::Type, Errno>(reported(error))),
        answers::<R, F>(bytes, fds, item),
    ensures
        heard(item, failure) == Some(
            Ok::<_, Error>(Err::<R::Type, Error>(failure(error.raw_os_error()->0))),
        ),
{
    answer_is_received::<R, F>(Err(reported(error)), bytes, fds, item);
}

/// A file that was registered is the one that the user can lock: the id that the user is given finds
/// it in the owner process.
pub proof fn registered_file_can_be_locked<F>(
    before: OwnerState,
    token: u64,
    tracker: Result<(), Error>,
    outcome: Result<u64, Error>,
    after: OwnerState,
    bytes: Seq<u8>,
    fds: Vec<F>,
    item: Item<u64, F>,
    failure: spec_fn(i32) -> Error,
    owner: u64,
    action: LockAction,
    params: LockParams,
    codes: SystemCodes,
    plan: LockPlan,
)
    requires
        !before.exited,
        tracker is Ok,
        registers(before, token, tracker, outcome, after),
        carries(bytes, registration_answer(outcome)),
        answers::<Register<F>, F>(bytes, fds, item),
        heard(item, failure) matches Some(reply) && flattened(reply) matches Ok(id) && plans(
            after,
            codes,
            LockCommand { id, action, params },
            plan,
        ),
    ensures
        match action {
            LockAction::GetLockStatus => plan matches LockPlan::Query { token: file, raw } && file
                == token && params.described(codes, raw),
            LockAction::SetLockNonBlocking => plan matches LockPlan::Attempt { token: file, raw }
                && file == token && params.described(codes, raw),
            LockAction::SetLockBlocking => plan == (LockPlan::Await { token, params }),
        },
{
    answer_is_received::<Register<F>, F>(registration_answer(outcome), bytes, fds, item);
}

/// Where the system sets a lock as requested, without waiting, the user is told that the requested
/// lock was set.
pub proof fn lock_set_is_lock_returned<F>(
    state: OwnerState,
    codes: SystemCodes,
    lockable: Lockable,
    params: LockParams,
    token: u64,
    raw: RawLock,
    answer: LockAnswer,
    bytes: Seq<u8>,
    fds: Vec<F>,
    item: Item<ReplyLockCommandData, F>,
    failure: spec_fn(i32) -> Error,
)
    requires
        codes.well_formed(),
        state.descriptors.contains_key(lockable.id),
        plans(
            state,
            codes,
            LockCommand { id: lockable.id, action: LockAction::SetLockNonBlocking, params },
            LockPlan::Attempt { token, raw },
        ),
        reports_lock(codes, raw, answer),
        carries(bytes, answer),
        answers::<LockCommand, F>(bytes, fds, item),
    ensures
        heard(item, failure) matches Some(reply) && settled(reply, Reason::SetLockPending) == Ok::<
            LockParams,
            Error,
        >(params),
{
    lock_set_is_lock_reported(codes, params, raw, answer);
    answer_is_received::<LockCommand, F>(answer, bytes, fds, item);
}

/// A lock on a file that its owner process does not hold is refused, and the user is told that there
/// is no such file.
pub proof fn lock_on_unknown_file_is_refused<F>(
    state: OwnerState,
    codes: SystemCodes,
    command: LockCommand,
    plan: LockPlan,
    bytes: Seq<u8>,
    fds: Vec<F>,
    item: Item<ReplyLockCommandData, F>,
    failure: spec_fn(i32) -> Error,
)
    requires
        !state.descriptors.contains_key(command.id),
        plans(state, codes, command, plan),
        plan matches LockPlan::Refuse(errno) && carries(bytes, LockAnswer::Err(errno)),
        answers::<LockCommand, F>(bytes, fds, item),
    ensures
        plan == LockPlan::Refuse(Errno::NoEnt),
        heard(item, failure) == Some(
            Ok::<_, Error>(Err::<ReplyLockCommandData, Error>(failure(2))),
        ),
{
    answer_is_received::<LockCommand, F>(LockAnswer::Err(Errno::NoEnt), bytes, fds, item);
}

/// Once a file was unregistered, locks on it are refused.
pub proof fn unregistered_file_cannot_be_locked<F>(
    before: OwnerState,
    codes: SystemCodes,
    lockable: Lockable,
    token: u64,
    tracker: Result<(), Error>,
    service: Service<F>,
    after: OwnerState,
    action: LockAction,
    params: LockParams,
    plan: LockPlan,
)
    requires
        serves(
            before,
            codes,
            Message::Unregister(Unregister { id: lockable.id }),
            token,
            tracker,
            service,
            after,
        ),
        plans(after, codes, LockCommand { id: lockable.id, action, params }, plan),
    ensures
        plan == LockPlan::Refuse(Errno::NoEnt),
{
}

/// A signal that interrupts a user who waits for a lock stops the very thread of the owner process
/// that waits for it.
pub proof fn interrupt_reaches_waiting_thread<F>(
    before: OwnerState,
    codes: SystemCodes,
    lock: LockParams,
    thread: u64,
    outcome: Result<(), Error>,
    answer: LockAnswer,
    step: BlockingStep,
    after: OwnerState,
    first: Option<Reply<ReplyLockCommandData>>,
    pending: Interruptable,
    token: u64,
    tracker: Result<(), Error>,
    service: Service<F>,
    later: OwnerState,
)
    requires
        advances(
            before,
            codes,
            lock,
            thread,
            BlockingStep::Attempt,
            outcome,
            Some(answer),
            step,
            after,
        ),
        first matches Some(reply) && answer matches Ok(data) && flattened(reply) == Ok::<
            ReplyLockCommandData,
            Error,
        >(data),
        after_first(first) == AfterFirst::Wait(pending),
        serves(
            after,
            codes,
            Message::Interrupt(Interrupt { id: pending.id }),
            token,
            tracker,
            service,
            later,
        ),
    ensures
        service == Service::<F>::StopThread(thread),
        later == after,
{
}

/// When a wait for a lock is over, the owner process forgets the pending lock: it drops the thread,
/// and is left with the pending locks that it had before.
pub proof fn ended_wait_is_forgotten<F>(
    before: OwnerState,
    codes: SystemCodes,
    lock: LockParams,
    thread: u64,
    outcome: Result<(), Error>,
    answer: LockAnswer,
    step: BlockingStep,
    after: OwnerState,
    first: Option<Reply<ReplyLockCommandData>>,
    pending: Interruptable,
    token: u64,
    tracker: Result<(), Error>,
    service: Service<F>,
    later: OwnerState,
)
    requires
        advances(
            before,
            codes,
            lock,
            thread,
            BlockingStep::Attempt,
            outcome,
            Some(answer),
            step,
            after,
        ),
        first matches Some(reply) && answer matches Ok(data) && flattened(reply) == Ok::<
            ReplyLockCommandData,
            Error,
        >(data),
        after_first(first) == AfterFirst::Wait(pending),
        serves(
            after,
            codes,
            Message::RemoveInterrupt(RemoveInterrupt { id: pending.id }),
            token,
            tracker,
            service,
            later,
        ),
    ensures
        service == Service::<F>::DropThread(thread),
        later.interrupts == before.interrupts,
        later.descriptors == before.descriptors,
{
    assert(later.interrupts =~= before.interrupts);
}

/// A user who waits for a lock is told how the wait of the owner process ended: that the requested
/// lock was set, or which failure the system reported. A wait that was interrupted ends that way,
/// with the number of the interruption.
pub proof fn end_of_wait_is_returned<F>(
    before: OwnerState,
    codes: SystemCodes,
    lock: LockParams,
    thread: u64,
    outcome: Result<(), Error>,
    answer: LockAnswer,
    step: BlockingStep,
    after: OwnerState,
    bytes: Seq<u8>,
    fds: Vec<F>,
    item: Item<ReplyLockCommandData, F>,
    failure: spec_fn(i32) -> Error,
)
    requires
        outcome matches Err(error) ==> error.raw_os_error() is Some,
        advances(
            before,
            codes,
            lock,
            thread,
            BlockingStep::Wait,
            outcome,
            Some(answer),
            step,
            after,
        ),
        carries(bytes, answer),
        answers::<LockCommand, F>(bytes, fds, item),
    ensures
        ({
            let waited: Waited = Ok(heard(item, failure));
            &&& !cut_short(waited)
            &&& wait_outcome(waited) == match outcome {
                Ok(()) => Ok::<LockParams, Error>(lock),
                Err(error) => Err(failure(error.raw_os_error()->0)),
            }
        }),
{
    answer_is_received::<LockCommand, F>(answer, bytes, fds, item);
}

/// A user who registers a file with an owner process that has decided to exit does not fail for it:
/// the owner process is forgotten, and the search that follows asks for a new one, unless another one
/// has taken its place.
pub proof fn registering_with_exiting_owner_goes_on<F>(
    state: OwnerState,
    token: u64,
    tracker: Result<(), Error>,
    outcome: Result<u64, Error>,
    after: OwnerState,
    bytes: Seq<u8>,
    fds: Vec<F>,
    item: Item<u64, F>,
    failure: spec_fn(i32) -> Error,
    manager: ManagerState,
    owner: Owner,
    search: Search,
)
    requires
        state.exited,
        registers(state, token, tracker, outcome, after),
        carries(bytes, registration_answer(outcome)),
        answers::<Register<F>, F>(bytes, fds, item),
        forall|number: i32| (#[trigger] failure(number)).raw_os_error() == Some(number),
    ensures
        heard(item, failure) matches Some(reply) && after_register(registered(owner, reply))
            == AfterRegister::Retry,
        ({
            let later = changed(manager, Change::Exited(search.owner_id, owner.token));
            &&& later.owners.contains_key(search.owner_id) ==> later.owners[search.owner_id]
                != owner.token
            &&& manager.owners.contains_key(search.owner_id) && manager.owners[search.owner_id]
                == owner.token ==> after_look_up(later.owners, search) == SearchStep::Spawn(
                RequestSpawnOwner { ttl: search.ttl },
            )
        }),
{
    answer_is_received::<Register<F>, F>(registration_answer(outcome), bytes, fds, item);
    exited_owner_is_replaced(manager, search, owner);
}

} // verus!
