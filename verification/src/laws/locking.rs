//! Laws of locks: how they are asked for, set, waited for and interrupted.

use crate::client::{
    AfterFirst, AfterInterrupt, AfterPre, AfterWait, Interruptable, Invoker, Lockable, Reply, Waited,
};
use crate::error::{report, Errno, Error, ErrorKind, Reason};
use crate::laws::threads::comes_before;
use crate::messages::{
    answer_is_received, next_reply, reply, Interrupt, Item, LockCommand, RemoveInterrupt,
    ReplyLockCommandData, Unregister,
};
use crate::owner::{
    attempt_answer, query_answer, set_lock_blocking, BlockingStep, DaemonOwnerInner, LockAnswer,
    LockPlan, OwnerState,
};
use crate::types::{LockAction, LockParams, LockType, LockWhence, RawLock, SystemCodes};
use vstd::prelude::*;

verus! {

/// Whether the fields of a system lock are those of a lock, number for number.
pub open spec fn is_raw(codes: SystemCodes, params: LockParams, raw: RawLock) -> bool {
    &&& raw.l_start == params.start
    &&& raw.l_len == params.len
    &&& raw.l_pid == params.pid
    &&& params.lock_type == LockType::Read ==> raw.l_type == codes.read_lock
    &&& params.lock_type == LockType::Write ==> raw.l_type == codes.write_lock
    &&& params.lock_type == LockType::Unlock ==> raw.l_type == codes.unlock
    &&& params.whence == LockWhence::Start ==> raw.l_whence == codes.seek_start
    &&& params.whence == LockWhence::Current ==> raw.l_whence == codes.seek_current
    &&& params.whence == LockWhence::End ==> raw.l_whence == codes.seek_end
}

/// What a user hears of an answer. `failure` says which failure each number stands for.
pub open spec fn as_heard<F>(
    item: Item<ReplyLockCommandData, F>,
    failure: spec_fn(i32) -> Error,
) -> Option<Reply<ReplyLockCommandData>> {
    match item {
        Some(Ok(Ok((data, _)))) => Some(Ok(Ok(data))),
        Some(Ok(Err(number))) => Some(Ok(Err(failure(number)))),
        Some(Err(error)) => Some(Err(error)),
        None => None,
    }
}

/// Whether a user hears an answer of an owner process: the answer is sent, received, and its numbers
/// are turned into failures.
pub open spec fn is_heard<F>(
    answer: LockAnswer,
    bytes: Vec<u8>,
    fds: Vec<F>,
    item: Item<ReplyLockCommandData, F>,
) -> bool {
    &&& call_ensures(reply::<LockCommand>, (answer,), bytes)
    &&& call_ensures(
        next_reply::<LockCommand, F>,
        (Ok::<(Vec<u8>, Vec<F>), Error>((bytes, fds)),),
        item,
    )
}

/// The user of a lock hears exactly what the owner process answered.
pub proof fn lock_answer_is_heard<F>(
    answer: LockAnswer,
    bytes: Vec<u8>,
    fds: Vec<F>,
    item: Item<ReplyLockCommandData, F>,
)
    requires
        is_heard(answer, bytes, fds, item),
    ensures
        match answer {
            Ok(data) => item == Some(Ok::<_, Error>(Ok::<_, i32>((data, fds)))),
            Err(Errno::Raw(number)) => item == Some(
                Ok::<_, Error>(Err::<(ReplyLockCommandData, Vec<F>), i32>(number)),
            ),
            Err(_) => item matches Some(Ok(Err(_))),
        },
{
    answer_is_received::<LockCommand, F>(answer, bytes@, fds, item);
}

/// The state of an owner process but for its pending locks.
pub open spec fn same_files(before: OwnerState, after: OwnerState) -> bool {
    &&& after.descriptors == before.descriptors
    &&& after.next_id == before.next_id
    &&& after.holders == before.holders
    &&& after.exited == before.exited
}

/// A blocking lock that is held elsewhere is waited for, whatever the lock. The owner process answers
/// that it is pending, under a new id that finds the waiting thread, and the user who hears this
/// waits for it under the same id. The user is never told that the lock is held.
pub proof fn held_lock_is_waited_for<F>(
    inner: &mut DaemonOwnerInner,
    codes: SystemCodes,
    lock: LockParams,
    thread: u64,
    kind: ErrorKind,
    decision: (Option<LockAnswer>, BlockingStep),
    bytes: Vec<u8>,
    fds: Vec<F>,
    item: Item<ReplyLockCommandData, F>,
    failure: spec_fn(i32) -> Error,
    lockable: Lockable,
    after: AfterFirst,
    earlier: u64,
)
    requires
        call_ensures(
            set_lock_blocking,
            (
                inner,
                &codes,
                lock,
                thread,
                BlockingStep::Attempt,
                Err::<(), Error>(Error::Os { errno: codes.would_block, kind }),
            ),
            decision,
        ),
        decision.0 matches Some(answer) && is_heard(answer, bytes, fds, item),
        call_ensures(Lockable::set_lock_blocking, (&lockable, as_heard(item, failure)), after),
    ensures
        after matches AfterFirst::Wait(pending) && {
            &&& decision.0 == Some(LockAnswer::Ok(ReplyLockCommandData::Pending(pending.id)))
            &&& !old(inner)@.interrupts.contains_key(pending.id)
            &&& comes_before(old(inner)@.interrupt_next_id, earlier, pending.id) ==> old(
                inner,
            )@.interrupts.contains_key(earlier)
            &&& final(inner)@.interrupts == old(inner)@.interrupts.insert(pending.id, thread)
            &&& final(inner)@.interrupt_next_id == (if pending.id == u64::MAX {
                0
            } else {
                (pending.id + 1) as u64
            })
        },
        decision.1 == BlockingStep::Unblock,
        same_files(old(inner)@, final(inner)@),
{
    lock_answer_is_heard(decision.0->0, bytes, fds, item);
}

/// An attempt to set a lock that the system refuses for any other reason than that the lock is held
/// is answered with the system's number, and nothing becomes pending. The thread goes on all the
/// same.
pub proof fn refused_attempt_is_told(
    inner: &mut DaemonOwnerInner,
    codes: SystemCodes,
    lock: LockParams,
    thread: u64,
    errno: i32,
    kind: ErrorKind,
    decision: (Option<LockAnswer>, BlockingStep),
)
    requires
        errno != codes.would_block,
        call_ensures(
            set_lock_blocking,
            (
                inner,
                &codes,
                lock,
                thread,
                BlockingStep::Attempt,
                Err::<(), Error>(Error::Os { errno, kind }),
            ),
            decision,
        ),
    ensures
        decision == (Some(LockAnswer::Err(Errno::Raw(errno))), BlockingStep::Unblock),
        final(inner)@ == old(inner)@,
{
}

/// A lock that was set, at once or after a wait, is answered with the very lock that was asked for.
pub proof fn lock_set_is_answered(
    inner: &mut DaemonOwnerInner,
    codes: SystemCodes,
    lock: LockParams,
    thread: u64,
    step: BlockingStep,
    decision: (Option<LockAnswer>, BlockingStep),
)
    requires
        step == BlockingStep::Attempt || step == BlockingStep::Wait,
        call_ensures(
            set_lock_blocking,
            (inner, &codes, lock, thread, step, Ok::<(), Error>(())),
            decision,
        ),
    ensures
        decision.0 == Some(LockAnswer::Ok(ReplyLockCommandData::Done(lock))),
        decision.1 == (if step == BlockingStep::Attempt {
            BlockingStep::Unblock
        } else {
            BlockingStep::End
        }),
        final(inner)@ == old(inner)@,
{
}

/// A wait begins without an answer once the signal that interrupts it gets through, and ends in an
/// answer with the system's number if it cannot begin or is cut short. Nothing follows an end.
pub proof fn wait_begins_and_ends(
    inner: &mut DaemonOwnerInner,
    codes: SystemCodes,
    lock: LockParams,
    thread: u64,
    step: BlockingStep,
    outcome: Result<(), Error>,
    errno: i32,
    kind: ErrorKind,
    decision: (Option<LockAnswer>, BlockingStep),
)
    requires
        step != BlockingStep::Attempt,
        outcome is Ok || outcome == Err::<(), Error>(Error::Os { errno, kind }),
        call_ensures(set_lock_blocking, (inner, &codes, lock, thread, step, outcome), decision),
    ensures
        step == BlockingStep::Unblock && outcome is Ok ==> decision == (
            None::<LockAnswer>,
            BlockingStep::Wait,
        ),
        step != BlockingStep::End && outcome is Err ==> decision == (
            Some(LockAnswer::Err(Errno::Raw(errno))),
            BlockingStep::End,
        ),
        step == BlockingStep::End ==> decision == (None::<LockAnswer>, BlockingStep::End),
        final(inner)@ == old(inner)@,
{
}

/// Any failure of a query, an attempt or a wait is answered with the number that reports it, unless
/// it is the system's word that the lock is held. It leaves nothing pending.
pub proof fn failure_is_answered_by_its_number(
    inner: &mut DaemonOwnerInner,
    codes: SystemCodes,
    lock: LockParams,
    raw: RawLock,
    thread: u64,
    step: BlockingStep,
    error: Error,
    errno: Errno,
    query: LockAnswer,
    attempt: LockAnswer,
    decision: (Option<LockAnswer>, BlockingStep),
)
    requires
        call_ensures(report, (error,), errno),
        call_ensures(query_answer, (&codes, Err::<RawLock, Error>(error)), query),
        call_ensures(attempt_answer, (&codes, raw, Err::<(), Error>(error)), attempt),
        step != BlockingStep::End,
        step == BlockingStep::Attempt ==> !(error matches Error::Os { errno: number, kind: _ }
            && number == codes.would_block),
        call_ensures(
            set_lock_blocking,
            (inner, &codes, lock, thread, step, Err::<(), Error>(error)),
            decision,
        ),
    ensures
        query == LockAnswer::Err(errno),
        attempt == LockAnswer::Err(errno),
        decision.0 == Some(LockAnswer::Err(errno)),
        decision.1 == (if step == BlockingStep::Attempt {
            BlockingStep::Unblock
        } else {
            BlockingStep::End
        }),
        final(inner)@ == old(inner)@,
{
}

/// A lock command on a registered file is performed on that file, with exactly the lock that was
/// asked for: a query asks the system, an attempt does not wait, and the rest waits in a thread.
pub proof fn command_reaches_its_file(
    inner: DaemonOwnerInner,
    codes: SystemCodes,
    id: u64,
    file: u64,
    action: LockAction,
    params: LockParams,
    plan: LockPlan,
)
    requires
        inner@.descriptors.contains_key(id),
        inner@.descriptors[id] == file,
        call_ensures(
            DaemonOwnerInner::handle_lock_command,
            (&inner, &codes, LockCommand { id, action, params }),
            plan,
        ),
    ensures
        action == LockAction::GetLockStatus ==> (plan matches LockPlan::Query { token, raw } && token
            == file && is_raw(codes, params, raw)),
        action == LockAction::SetLockNonBlocking ==> (plan matches LockPlan::Attempt { token, raw }
            && token == file && is_raw(codes, params, raw)),
        action == LockAction::SetLockBlocking ==> plan == (LockPlan::Await { token: file, params }),
{
}

/// A lock command on a file that is not registered is refused: there is no such file.
pub proof fn command_on_no_file_is_refused(
    inner: DaemonOwnerInner,
    codes: SystemCodes,
    command: LockCommand,
    plan: LockPlan,
)
    requires
        !inner@.descriptors.contains_key(command.id),
        call_ensures(DaemonOwnerInner::handle_lock_command, (&inner, &codes, command), plan),
    ensures
        plan == LockPlan::Refuse(Errno::NoEnt),
{
}

/// The lock that the system found for a query is the lock that the user gets, of whatever type, range
/// and process.
pub proof fn lock_found_is_lock_returned<F>(
    codes: SystemCodes,
    found: LockParams,
    raw: RawLock,
    answer: LockAnswer,
    bytes: Vec<u8>,
    fds: Vec<F>,
    item: Item<ReplyLockCommandData, F>,
    failure: spec_fn(i32) -> Error,
    lockable: Lockable,
    outcome: Result<LockParams, Error>,
)
    requires
        codes.well_formed(),
        is_raw(codes, found, raw),
        call_ensures(query_answer, (&codes, Ok::<RawLock, Error>(raw)), answer),
        is_heard(answer, bytes, fds, item),
        as_heard(item, failure) matches Some(reply) && call_ensures(
            Lockable::get_lock,
            (&lockable, reply),
            outcome,
        ),
    ensures
        answer == LockAnswer::Ok(ReplyLockCommandData::Done(found)),
        outcome == Ok::<LockParams, Error>(found),
{
    lock_answer_is_heard(answer, bytes, fds, item);
}

/// Where the system sets a lock without waiting, the user is told of exactly that lock.
pub proof fn lock_attempted_is_lock_returned<F>(
    codes: SystemCodes,
    params: LockParams,
    raw: RawLock,
    answer: LockAnswer,
    bytes: Vec<u8>,
    fds: Vec<F>,
    item: Item<ReplyLockCommandData, F>,
    failure: spec_fn(i32) -> Error,
    lockable: Lockable,
    outcome: Result<LockParams, Error>,
)
    requires
        codes.well_formed(),
        is_raw(codes, params, raw),
        call_ensures(attempt_answer, (&codes, raw, Ok::<(), Error>(())), answer),
        is_heard(answer, bytes, fds, item),
        as_heard(item, failure) matches Some(reply) && call_ensures(
            Lockable::set_lock_nonblocking,
            (&lockable, reply),
            outcome,
        ),
    ensures
        answer == LockAnswer::Ok(ReplyLockCommandData::Done(params)),
        outcome == Ok::<LockParams, Error>(params),
{
    lock_answer_is_heard(answer, bytes, fds, item);
}

/// A lock that the system describes with a number that stands for nothing is answered as invalid.
pub proof fn senseless_lock_is_invalid(
    codes: SystemCodes,
    raw: RawLock,
    query: LockAnswer,
    attempt: LockAnswer,
)
    requires
        codes.well_formed(),
        !(codes.read_lock <= raw.l_type <= codes.unlock) || !(codes.seek_start <= raw.l_whence
            <= codes.seek_end),
        call_ensures(query_answer, (&codes, Ok::<RawLock, Error>(raw)), query),
        call_ensures(attempt_answer, (&codes, raw, Ok::<(), Error>(())), attempt),
    ensures
        query == LockAnswer::Err(Errno::Inval),
        attempt == LockAnswer::Err(Errno::Inval),
{
}

/// A failure of the system reaches the user of a query and of an attempt under its own number.
pub proof fn system_refusal_is_returned<F>(
    codes: SystemCodes,
    raw: RawLock,
    errno: i32,
    kind: ErrorKind,
    answers: (LockAnswer, LockAnswer),
    bytes: (Vec<u8>, Vec<u8>),
    fds: Vec<F>,
    items: (Item<ReplyLockCommandData, F>, Item<ReplyLockCommandData, F>),
    failure: spec_fn(i32) -> Error,
    lockable: Lockable,
    outcomes: (Result<LockParams, Error>, Result<LockParams, Error>),
)
    requires
        call_ensures(
            query_answer,
            (&codes, Err::<RawLock, Error>(Error::Os { errno, kind })),
            answers.0,
        ),
        call_ensures(
            attempt_answer,
            (&codes, raw, Err::<(), Error>(Error::Os { errno, kind })),
            answers.1,
        ),
        is_heard(answers.0, bytes.0, fds, items.0),
        is_heard(answers.1, bytes.1, fds, items.1),
        as_heard(items.0, failure) matches Some(reply) && call_ensures(
            Lockable::get_lock,
            (&lockable, reply),
            outcomes.0,
        ),
        as_heard(items.1, failure) matches Some(reply) && call_ensures(
            Lockable::set_lock_nonblocking,
            (&lockable, reply),
            outcomes.1,
        ),
    ensures
        outcomes.0 == Err::<LockParams, Error>(failure(errno)),
        outcomes.1 == Err::<LockParams, Error>(failure(errno)),
{
    lock_answer_is_heard(answers.0, bytes.0, fds, items.0);
    lock_answer_is_heard(answers.1, bytes.1, fds, items.1);
}

/// A query and an attempt tell the user what was answered: the lock as it is, the failure of either
/// side as it is, and that a pending lock makes no sense.
pub proof fn answer_is_returned(
    lockable: Lockable,
    reply: Reply<ReplyLockCommandData>,
    found: Result<LockParams, Error>,
    set: Result<LockParams, Error>,
)
    requires
        call_ensures(Lockable::get_lock, (&lockable, reply), found),
        call_ensures(Lockable::set_lock_nonblocking, (&lockable, reply), set),
    ensures
        reply matches Ok(Ok(ReplyLockCommandData::Done(params))) ==> found == Ok::<
                LockParams,
                Error,
            >(params) && set == Ok::<LockParams, Error>(params),
        reply matches Ok(Ok(ReplyLockCommandData::Pending(_))) ==> found == Err::<
                LockParams,
                Error,
            >(Error::Own(Reason::GetLockPending)) && set == Err::<LockParams, Error>(
                Error::Own(Reason::SetLockPending),
            ),
        reply matches Ok(Err(error)) ==> found == Err::<LockParams, Error>(error) && set == Err::<
            LockParams,
            Error,
        >(error),
        reply matches Err(error) ==> found == Err::<LockParams, Error>(error) && set == Err::<
            LockParams,
            Error,
        >(error),
{
}

/// A command speaks of the file that it was composed for, and asks for what its user asked for. The
/// request that lets go of a file speaks of the same file.
pub proof fn command_asks_what_is_asked(
    lockable: Lockable,
    action: LockAction,
    params: LockParams,
    command: LockCommand,
    request: Unregister,
)
    requires
        call_ensures(Lockable::command, (&lockable, action, params), command),
        call_ensures(Lockable::unregistration, (&lockable,), request),
    ensures
        command.id == lockable.id,
        command.action == action,
        command.params == params,
        request.id == lockable.id,
{
}

/// The first answer to a blocking lock ends it, with the lock or the failure that was answered,
/// unless the lock is pending. A closed channel is a failure.
pub proof fn first_answer_is_heeded(
    lockable: Lockable,
    next: Option<Reply<ReplyLockCommandData>>,
    after: AfterFirst,
)
    requires
        call_ensures(Lockable::set_lock_blocking, (&lockable, next), after),
    ensures
        next matches Some(Ok(Ok(ReplyLockCommandData::Done(params)))) ==> after
                == AfterFirst::Return(Ok(params)),
        next matches Some(Ok(Ok(ReplyLockCommandData::Pending(id)))) ==> after
                == AfterFirst::Wait(Interruptable { id }),
        next matches Some(Ok(Err(error))) ==> after == AfterFirst::Return(Err(error)),
        next matches Some(Err(error)) ==> after == AfterFirst::Return(Err(error)),
        next is None ==> after == AfterFirst::Return(Err(Error::Own(Reason::BlockingLockClosed))),
{
}

/// A wait that a signal cuts short, before an answer came, makes the user interrupt the very lock
/// that is pending. An interruption that the owner process reports ends the lock instead.
pub proof fn signal_interrupts_the_pending_lock(
    pending: Interruptable,
    error: Error,
    cut: AfterWait,
    reported: AfterWait,
)
    requires
        error.kind() == ErrorKind::Interrupted,
        call_ensures(
            Interruptable::waited,
            (pending, Waited::Ok(Some(Reply::<ReplyLockCommandData>::Err(error)))),
            cut,
        ),
        call_ensures(
            Interruptable::waited,
            (pending, Waited::Ok(Some(Reply::<ReplyLockCommandData>::Ok(Err(error))))),
            reported,
        ),
    ensures
        cut == AfterWait::Interrupt(pending, Interrupt { id: pending.id }),
        reported == AfterWait::Return(RemoveInterrupt { id: pending.id }, Err(error)),
{
}

/// Any other wait ends the lock, with the lock or the failure that was answered, and the owner
/// process is told to forget the very lock that was pending.
pub proof fn end_of_wait_is_heeded(pending: Interruptable, waited: Waited, after: AfterWait)
    requires
        !(waited matches Ok(Some(Err(error))) && error.kind() == ErrorKind::Interrupted),
        call_ensures(Interruptable::waited, (pending, waited), after),
    ensures
        after matches AfterWait::Return(request, outcome) && {
            &&& request.id == pending.id
            &&& waited matches Ok(Some(Ok(Ok(ReplyLockCommandData::Done(params))))) ==> outcome
                == Ok::<LockParams, Error>(params)
            &&& waited matches Ok(Some(Ok(Ok(ReplyLockCommandData::Pending(_))))) ==> outcome
                == Err::<LockParams, Error>(Error::Own(Reason::SetLockWaitPendingTwice))
            &&& waited matches Ok(Some(Ok(Err(error)))) ==> outcome == Err::<LockParams, Error>(
                error,
            )
            &&& waited matches Ok(Some(Err(error))) ==> outcome == Err::<LockParams, Error>(error)
            &&& waited matches Ok(None) ==> outcome == Err::<LockParams, Error>(
                Error::Own(Reason::BlockingLockClosed),
            )
            &&& waited matches Err(error) ==> outcome == Err::<LockParams, Error>(error)
        },
{
}

/// Once the owner process has interrupted a lock, the user waits on for its answer. If that fails,
/// the lock ends with the failure and is forgotten.
pub proof fn interrupted_lock_is_awaited(
    pending: Interruptable,
    reply: Reply<()>,
    after: AfterInterrupt,
)
    requires
        call_ensures(Interruptable::interrupted, (pending, reply), after),
    ensures
        reply matches Ok(Ok(_)) ==> after == AfterInterrupt::Wait(pending),
        reply matches Ok(Err(error)) ==> after == AfterInterrupt::Return(
            RemoveInterrupt { id: pending.id },
            Err(error),
        ),
        reply matches Err(error) ==> after == AfterInterrupt::Return(
            RemoveInterrupt { id: pending.id },
            Err(error),
        ),
{
}

/// A pending lock keeps the id that it was given, also in the request that forgets it.
pub proof fn pending_lock_keeps_its_id(
    id: u64,
    pending: Interruptable,
    request: RemoveInterrupt,
)
    requires
        call_ensures(Interruptable::new, (id,), pending),
        call_ensures(Interruptable::removal, (pending,), request),
    ensures
        pending.id == id,
        request.id == id,
{
}

/// A detached lock is asked for exactly if its user has taken the means to interrupt it. Otherwise
/// the user is told the very failure of taking them.
pub proof fn detached_lock_needs_its_user(
    lockable: Lockable,
    pre: Result<(), Error>,
    next: AfterPre,
)
    requires
        call_ensures(Lockable::set_lock_blocking_detached, (&lockable, pre), next),
    ensures
        pre is Ok <==> next == AfterPre::Lock,
        pre matches Err(error) ==> next == AfterPre::Invoke(Err(error)),
{
}

/// A callback is called with the outcome, and only once: it is gone after the call.
pub proof fn callback_is_called_once<F: FnOnce(Result<LockParams, Error>)>(
    callback: F,
    fresh: Invoker<F>,
    invoker: &mut Invoker<F>,
    outcome: Result<LockParams, Error>,
)
    requires
        call_ensures(Invoker::<F>::new, (callback,), fresh),
        *old(invoker) == fresh,
        call_ensures(Invoker::<F>::invoke, (invoker, outcome), ()),
    ensures
        call_ensures(callback, (outcome,), ()),
        final(invoker)@ is None,
{
}

/// A callback that is let go of before it was called is told of a panic.
pub proof fn uncalled_callback_is_told<F: FnOnce(Result<LockParams, Error>)>(
    callback: F,
    fresh: Invoker<F>,
)
    requires
        call_ensures(Invoker::<F>::new, (callback,), fresh),
        call_ensures(Invoker::<F>::release, (fresh,), ()),
    ensures
        call_ensures(
            callback,
            (Err::<LockParams, Error>(Error::Own(Reason::ThreadPanicked)),),
            (),
        ),
{
}

} // verus!
