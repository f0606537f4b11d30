//! Laws of owner processes: how files are registered and released, and when a process exits.

use crate::client::{flatten, Lockable, Owner, Reply};
use crate::error::{report, Errno, Error, ErrorKind, Reason};
use crate::laws::locking::is_raw;
use crate::laws::threads::comes_before;
use crate::messages::{
    answer_is_received, next_reply, reply, Interrupt, Item, LockCommand, Message, Ping, Register,
    RemoveInterrupt, RequestSpawnOwner, Unregister,
};
use crate::owner::{
    owner_receiving_loop, DaemonOwner, DaemonOwnerInner, LockPlan, OwnerState, Reception,
    Service, TtlAction, TtlEvent,
};
use crate::owner_spawner::{OwnerSpawner, SpawnReply, SpawnerStep};
use crate::types::{LockAction, LockParams, SystemCodes, Ttl};
use vstd::prelude::*;

verus! {

/// What keeps an owner process is counted.
pub proof fn holders_are_counted(inner: DaemonOwnerInner, count: u64)
    requires
        call_ensures(DaemonOwnerInner::holders, (&inner,), count),
    ensures
        count == inner@.holders,
{
}

/// An owner process starts without files and pending locks, kept by nobody, and numbers both from
/// zero.
pub proof fn new_owner_is_empty(inner: DaemonOwnerInner)
    requires
        call_ensures(DaemonOwnerInner::new, (), inner),
    ensures
        inner@.holders == 0,
        !inner@.exited,
        inner@.descriptors == Map::<u64, u64>::empty(),
        inner@.interrupts == Map::<u64, u64>::empty(),
        inner@.next_id == 0,
        inner@.interrupt_next_id == 0,
{
}

/// A file that is registered with an owner process that goes on is kept under an id that no other
/// file has, the first that is free, and keeps the process from exiting. Nothing else changes.
pub proof fn file_is_kept<F>(
    inner: &mut DaemonOwnerInner,
    codes: SystemCodes,
    fd: F,
    token: u64,
    service: Service<F>,
    earlier: u64,
)
    requires
        !old(inner)@.exited,
        call_ensures(
            DaemonOwnerInner::serve::<F>,
            (inner, &codes, Message::Register(Register { fd }), token, Ok::<(), Error>(())),
            service,
        ),
    ensures
        service matches Service::Keep(kept, Ok(id)) && {
            &&& kept == fd
            &&& !old(inner)@.descriptors.contains_key(id)
            &&& final(inner)@.descriptors == old(inner)@.descriptors.insert(id, token)
            &&& comes_before(old(inner)@.next_id, earlier, id) ==> old(
                inner,
            )@.descriptors.contains_key(earlier)
            &&& final(inner)@.next_id == (if id == u64::MAX {
                0
            } else {
                (id + 1) as u64
            })
        },
        final(inner)@.holders == old(inner)@.holders + 1,
        !final(inner)@.exited,
        final(inner)@.interrupts == old(inner)@.interrupts,
        final(inner)@.interrupt_next_id == old(inner)@.interrupt_next_id,
{
}

/// Whether a user hears the answer to a registration.
pub open spec fn registration_is_heard<F>(
    answer: Result<u64, Errno>,
    bytes: Vec<u8>,
    fds: Vec<F>,
    item: Item<u64, F>,
) -> bool {
    &&& call_ensures(reply::<Register<F>>, (answer,), bytes)
    &&& call_ensures(
        next_reply::<Register<F>, F>,
        (Ok::<(Vec<u8>, Vec<F>), Error>((bytes, fds)),),
        item,
    )
}

/// What a user hears of the answer to a registration. `failure` says which failure each number
/// stands for.
pub open spec fn registration_as_heard<F>(
    item: Item<u64, F>,
    failure: spec_fn(i32) -> Error,
) -> Option<Reply<u64>> {
    match item {
        Some(Ok(Ok((id, _)))) => Some(Ok(Ok(id))),
        Some(Ok(Err(number))) => Some(Ok(Err(failure(number)))),
        Some(Err(error)) => Some(Err(error)),
        None => None,
    }
}

/// A user who registers a file can lock it: from the request to register it, over the answer and what
/// the user is given, to a command that finds exactly that file. This holds for every id.
pub proof fn registered_file_is_locked<F>(
    first: &mut DaemonOwnerInner,
    second: &mut DaemonOwnerInner,
    codes: SystemCodes,
    fd: F,
    token: u64,
    services: (Service<F>, Service<F>),
    bytes: Vec<u8>,
    fds: Vec<F>,
    item: Item<u64, F>,
    failure: spec_fn(i32) -> Error,
    owner: Owner,
    lockable: Result<Lockable, Error>,
    action: LockAction,
    params: LockParams,
    command: LockCommand,
    other: u64,
    tracker: Result<(), Error>,
)
    requires
        !old(first)@.exited,
        call_ensures(
            DaemonOwnerInner::serve::<F>,
            (first, &codes, Message::Register(Register { fd }), token, Ok::<(), Error>(())),
            services.0,
        ),
        services.0 matches Service::Keep(_, answer) && registration_is_heard(
            answer,
            bytes,
            fds,
            item,
        ),
        registration_as_heard(item, failure) matches Some(reply) && call_ensures(
            Owner::register,
            (&owner, reply),
            lockable,
        ),
        lockable matches Ok(lockable) ==> call_ensures(
            Lockable::command,
            (&lockable, action, params),
            command,
        ),
        *old(second) == *final(first),
        call_ensures(
            DaemonOwnerInner::serve::<F>,
            (second, &codes, Message::LockCommand(command), other, tracker),
            services.1,
        ),
    ensures
        services.0 matches Service::Keep(_, Ok(id)) && lockable == Ok::<Lockable, Error>(
            Lockable { owner: owner.token, id },
        ),
        services.1 matches Service::Lock(plan) && {
            &&& action == LockAction::GetLockStatus ==> (plan matches LockPlan::Query {
                token: file,
                raw,
            } && file == token && is_raw(codes, params, raw))
            &&& action == LockAction::SetLockNonBlocking ==> (plan matches LockPlan::Attempt {
                token: file,
                raw,
            } && file == token && is_raw(codes, params, raw))
            &&& action == LockAction::SetLockBlocking ==> plan == (LockPlan::Await {
                token,
                params,
            })
        },
        final(second)@ == old(second)@,
{
    let answer = services.0->Keep_1;
    answer_is_received::<Register<F>, F>(answer, bytes@, fds, item);
}

/// Every id that an owner process answers makes a file that its user can lock, and every failure is
/// passed on. Only the number of a closed connection says that the process has decided to exit.
pub proof fn registration_is_returned(
    owner: Owner,
    reply: Reply<u64>,
    lockable: Result<Lockable, Error>,
)
    requires
        call_ensures(Owner::register, (&owner, reply), lockable),
    ensures
        reply matches Ok(Ok(id)) ==> lockable == Ok::<Lockable, Error>(
            Lockable { owner: owner.token, id },
        ),
        reply matches Ok(Err(Error::Os { errno, kind })) ==> lockable == (if errno == 32 {
            Err::<Lockable, Error>(Error::Own(Reason::OwnerExited))
        } else {
            Err(Error::Os { errno, kind })
        }),
        reply matches Ok(Err(error)) ==> (error !is Os ==> lockable == Err::<Lockable, Error>(
            error,
        )),
        reply matches Err(error) ==> lockable == Err::<Lockable, Error>(error),
{
}

/// The request that registers a file carries that file, and a ping is judged by its answer.
pub proof fn owner_is_asked_and_judged<F>(
    owner: Owner,
    fd: F,
    request: Register<F>,
    reply: Reply<()>,
    outcome: Result<(), Error>,
    flat: Result<(), Error>,
)
    requires
        call_ensures(flatten::<()>, (reply,), flat),
        call_ensures(Owner::register_request::<F>, (&owner, fd), request),
        call_ensures(Owner::ping, (&owner, reply), outcome),
    ensures
        request.fd == fd,
        flat == outcome,
        reply matches Ok(Ok(_)) <==> outcome is Ok,
        reply matches Ok(Err(error)) ==> outcome == Err::<(), Error>(error),
        reply matches Err(error) ==> outcome == Err::<(), Error>(error),
{
}

/// A file is not kept where its threads cannot be tracked, or where the process has decided to exit.
/// The peer is told, of the exit by the number of a closed connection, and nothing changes.
pub proof fn file_is_refused<F>(
    inner: &mut DaemonOwnerInner,
    codes: SystemCodes,
    fd: F,
    token: u64,
    tracker: Result<(), Error>,
    service: Service<F>,
    number: Errno,
)
    requires
        old(inner)@.exited || tracker is Err,
        tracker matches Err(error) ==> error != Error::Own(Reason::OwnerExited) && call_ensures(
            report,
            (error,),
            number,
        ),
        call_ensures(
            DaemonOwnerInner::serve::<F>,
            (inner, &codes, Message::Register(Register { fd }), token, tracker),
            service,
        ),
    ensures
        service matches Service::Keep(kept, Err(errno)) && {
            &&& kept == fd
            &&& old(inner)@.exited ==> errno == Errno::Pipe
            &&& !old(inner)@.exited ==> errno == number
        },
        final(inner)@ == old(inner)@,
{
}

/// A request to unregister a registered file releases exactly that file, whatever else the owner
/// process holds, and no other file is touched. Until it is released, it keeps the process.
pub proof fn unregistered_file_is_released<F>(
    inner: &mut DaemonOwnerInner,
    codes: SystemCodes,
    id: u64,
    file: u64,
    token: u64,
    tracker: Result<(), Error>,
    service: Service<F>,
)
    requires
        old(inner)@.descriptors.contains_key(id),
        old(inner)@.descriptors[id] == file,
        call_ensures(
            DaemonOwnerInner::serve::<F>,
            (inner, &codes, Message::Unregister(Unregister { id }), token, tracker),
            service,
        ),
    ensures
        service == Service::<F>::Release(file),
        final(inner)@.descriptors == old(inner)@.descriptors.remove(id),
        final(inner)@.next_id == old(inner)@.next_id,
        final(inner)@.holders == old(inner)@.holders,
        final(inner)@.exited == old(inner)@.exited,
        final(inner)@.interrupts == old(inner)@.interrupts,
        final(inner)@.interrupt_next_id == old(inner)@.interrupt_next_id,
{
}

/// A request that names no registered file, or no pending lock, is answered so, and changes nothing.
pub proof fn unknown_id_is_answered<F>(
    inner: &mut DaemonOwnerInner,
    codes: SystemCodes,
    message: Message<F>,
    id: u64,
    token: u64,
    tracker: Result<(), Error>,
    service: Service<F>,
)
    requires
        ({
            ||| message == Message::<F>::Unregister(Unregister { id }) && !old(
                inner,
            )@.descriptors.contains_key(id)
            ||| message == Message::<F>::Interrupt(Interrupt { id }) && !old(
                inner,
            )@.interrupts.contains_key(id)
            ||| message == Message::<F>::RemoveInterrupt(RemoveInterrupt { id }) && !old(
                inner,
            )@.interrupts.contains_key(id)
        }),
        call_ensures(
            DaemonOwnerInner::serve::<F>,
            (inner, &codes, message, token, tracker),
            service,
        ),
    ensures
        service == Service::<F>::Answer(Err(Errno::NoEnt)),
        final(inner)@ == old(inner)@,
{
    assert(final(inner)@.descriptors =~= old(inner)@.descriptors);
    assert(final(inner)@.interrupts =~= old(inner)@.interrupts);
}

/// A pending lock is interrupted by stopping exactly its thread, as often as asked, and forgotten by
/// dropping exactly its thread, after which its id finds nothing. Files are not touched.
pub proof fn pending_lock_is_stopped_or_dropped<F>(
    stopped: &mut DaemonOwnerInner,
    dropped: &mut DaemonOwnerInner,
    codes: SystemCodes,
    id: u64,
    thread: u64,
    token: u64,
    tracker: Result<(), Error>,
    services: (Service<F>, Service<F>),
)
    requires
        old(stopped)@.interrupts.contains_key(id),
        old(stopped)@.interrupts[id] == thread,
        old(dropped)@ == old(stopped)@,
        call_ensures(
            DaemonOwnerInner::serve::<F>,
            (stopped, &codes, Message::Interrupt(Interrupt { id }), token, tracker),
            services.0,
        ),
        call_ensures(
            DaemonOwnerInner::serve::<F>,
            (dropped, &codes, Message::RemoveInterrupt(RemoveInterrupt { id }), token, tracker),
            services.1,
        ),
    ensures
        services.0 == Service::<F>::StopThread(thread),
        final(stopped)@ == old(stopped)@,
        services.1 == Service::<F>::DropThread(thread),
        final(dropped)@.interrupts == old(dropped)@.interrupts.remove(id),
        final(dropped)@.interrupt_next_id == old(dropped)@.interrupt_next_id,
        final(dropped)@.descriptors == old(dropped)@.descriptors,
        final(dropped)@.next_id == old(dropped)@.next_id,
        final(dropped)@.holders == old(dropped)@.holders,
        final(dropped)@.exited == old(dropped)@.exited,
{
}

/// A living owner process answers a ping favourably, and a ping changes nothing.
pub proof fn ping_is_answered<F>(
    inner: &mut DaemonOwnerInner,
    codes: SystemCodes,
    token: u64,
    tracker: Result<(), Error>,
    service: Service<F>,
)
    requires
        call_ensures(
            DaemonOwnerInner::serve::<F>,
            (inner, &codes, Message::Ping(Ping {  }), token, tracker),
            service,
        ),
    ensures
        service == Service::<F>::Answer(Ok(())),
        final(inner)@ == old(inner)@,
{
}

/// The handlers of single requests agree with how the requests are served.
pub proof fn handlers_agree(
    interrupter: DaemonOwnerInner,
    remover: &mut DaemonOwnerInner,
    unregisterer: &mut DaemonOwnerInner,
    registerer: &mut DaemonOwnerInner,
    rememberer: &mut DaemonOwnerInner,
    id: u64,
    token: u64,
    threads: (Result<u64, Error>, Result<u64, Error>),
    file: Result<u64, Error>,
    registered: Result<u64, Error>,
    pending: u64,
    refuser: &mut DaemonOwnerInner,
    error: Error,
    refused: Result<u64, Error>,
)
    requires
        call_ensures(
            DaemonOwnerInner::handle_fd_register,
            (refuser, token, Err::<(), Error>(error)),
            refused,
        ),
        call_ensures(
            DaemonOwnerInner::handle_interrupt,
            (&interrupter, Interrupt { id }),
            threads.0,
        ),
        call_ensures(
            DaemonOwnerInner::handle_interrupt_remove,
            (remover, RemoveInterrupt { id }),
            threads.1,
        ),
        call_ensures(
            DaemonOwnerInner::handle_fd_unregister,
            (unregisterer, Unregister { id }),
            file,
        ),
        call_ensures(
            DaemonOwnerInner::handle_fd_register,
            (registerer, token, Ok::<(), Error>(())),
            registered,
        ),
        call_ensures(DaemonOwnerInner::handle_interrupt_add, (rememberer, token), pending),
    ensures
        threads.0 == (if interrupter@.interrupts.contains_key(id) {
            Ok(interrupter@.interrupts[id])
        } else {
            Err(Error::Own(Reason::UnknownInterrupt))
        }),
        threads.1 == (if old(remover)@.interrupts.contains_key(id) {
            Ok(old(remover)@.interrupts[id])
        } else {
            Err(Error::Own(Reason::UnknownInterrupt))
        }),
        final(remover)@.interrupts == old(remover)@.interrupts.remove(id),
        final(remover)@ == (OwnerState {
            interrupts: final(remover)@.interrupts,
            ..old(remover)@
        }),
        file == (if old(unregisterer)@.descriptors.contains_key(id) {
            Ok(old(unregisterer)@.descriptors[id])
        } else {
            Err(Error::Own(Reason::UnknownDescriptor))
        }),
        final(unregisterer)@.descriptors == old(unregisterer)@.descriptors.remove(id),
        final(unregisterer)@ == (OwnerState {
            descriptors: final(unregisterer)@.descriptors,
            ..old(unregisterer)@
        }),
        old(registerer)@.exited ==> registered == Err::<u64, Error>(
            Error::Own(Reason::OwnerExited),
        ) && final(registerer)@ == old(registerer)@,
        !old(registerer)@.exited ==> (registered matches Ok(new_id) && !old(
            registerer,
        )@.descriptors.contains_key(new_id) && final(registerer)@.descriptors == old(
            registerer,
        )@.descriptors.insert(new_id, token) && final(registerer)@.holders == old(
            registerer,
        )@.holders + 1),
        final(registerer)@.interrupts == old(registerer)@.interrupts,
        final(registerer)@.interrupt_next_id == old(registerer)@.interrupt_next_id,
        final(registerer)@.exited == old(registerer)@.exited,
        refused == Err::<u64, Error>(
            if old(refuser)@.exited {
                Error::Own(Reason::OwnerExited)
            } else {
                error
            },
        ),
        final(refuser)@ == old(refuser)@,
        !old(rememberer)@.interrupts.contains_key(pending),
        final(rememberer)@.interrupts == old(rememberer)@.interrupts.insert(pending, token),
        final(rememberer)@ == (OwnerState {
            interrupts: final(rememberer)@.interrupts,
            interrupt_next_id: final(rememberer)@.interrupt_next_id,
            ..old(rememberer)@
        }),
{
}

/// The files and the pending locks of an owner process, and where the search for their ids starts, are
/// the same.
pub open spec fn same_tables(before: OwnerState, after: OwnerState) -> bool {
    &&& after.descriptors == before.descriptors
    &&& after.next_id == before.next_id
    &&& after.interrupts == before.interrupts
    &&& after.interrupt_next_id == before.interrupt_next_id
}

/// An owner process decides to exit exactly when nothing keeps it, and what keeps it is one more
/// after each file that it takes, and one less after each file that it releases. Having decided, it
/// takes no file and does not go back on it.
pub proof fn exit_is_decided_when_nothing_keeps_it(
    exiting: &mut DaemonOwnerInner,
    acquiring: &mut DaemonOwnerInner,
    releasing: &mut DaemonOwnerInner,
    exited: Result<(), Error>,
    acquired: Result<(), Error>,
)
    requires
        call_ensures(DaemonOwnerInner::try_exit, (exiting,), exited),
        *old(acquiring) == *final(exiting),
        call_ensures(DaemonOwnerInner::acquire_exit_lock, (acquiring,), acquired),
        *old(releasing) == *final(acquiring),
        old(exiting)@.descriptors.dom().len() <= old(exiting)@.holders,
        call_ensures(DaemonOwnerInner::release_exit_lock, (releasing,), ()),
    ensures
        exited is Ok <==> old(exiting)@.holders == 0,
        exited matches Err(error) ==> error == Error::Own(Reason::FilesRegistered),
        final(exiting)@.exited <==> old(exiting)@.exited || exited is Ok,
        final(exiting)@.holders == old(exiting)@.holders,
        final(exiting)@.descriptors == old(exiting)@.descriptors,
        same_tables(old(exiting)@, final(exiting)@),
        same_tables(old(acquiring)@, final(acquiring)@),
        same_tables(old(releasing)@, final(releasing)@),
        acquired is Ok <==> !final(exiting)@.exited,
        acquired matches Err(error) ==> error == Error::Own(Reason::OwnerExited),
        final(acquiring)@.holders == old(acquiring)@.holders + (if acquired is Ok {
            1int
        } else {
            0
        }),
        final(acquiring)@.exited == old(acquiring)@.exited,
        acquired is Ok ==> final(releasing)@.holders == old(exiting)@.holders,
        final(releasing)@.exited == old(releasing)@.exited,
        final(releasing)@.descriptors == old(exiting)@.descriptors,
{
}

/// A file that was unregistered keeps the process until it is released, and a file that is still
/// registered is never released in its place.
pub proof fn release_undoes_only_unregistered(inner: &mut DaemonOwnerInner)
    requires
        call_ensures(DaemonOwnerInner::release_exit_lock, (inner,), ()),
    ensures
        old(inner)@.descriptors.dom().len() < old(inner)@.holders ==> final(inner)@.holders + 1
            == old(inner)@.holders,
        old(inner)@.descriptors.dom().len() == old(inner)@.holders ==> final(inner)@.holders == old(
            inner,
        )@.holders,
        final(inner)@.descriptors == old(inner)@.descriptors,
        same_tables(old(inner)@, final(inner)@),
        final(inner)@.exited == old(inner)@.exited,
{
}

/// An owner process goes on while it is used or kept, ends with its receiving thread, and exits when
/// it was neither used for its time to live nor is kept.
pub proof fn unused_owner_exits_and_used_one_goes_on(
    owner: DaemonOwner,
    inner: &mut DaemonOwnerInner,
    event: TtlEvent,
    action: TtlAction,
)
    requires
        call_ensures(DaemonOwner::tick, (&owner, inner, event), action),
    ensures
        event == TtlEvent::Refreshed ==> action == TtlAction::Continue,
        event == TtlEvent::Disconnected ==> action == TtlAction::Join,
        event == (TtlEvent::TimedOut { finished: true }) ==> action == TtlAction::Join,
        event == (TtlEvent::TimedOut { finished: false }) && old(inner)@.holders > 0 ==> action
            == TtlAction::Continue,
        event == (TtlEvent::TimedOut { finished: false }) && old(inner)@.holders == 0 ==> action
            == TtlAction::Exit,
        action == TtlAction::Exit ==> final(inner)@.exited,
        action != TtlAction::Exit ==> final(inner)@ == old(inner)@,
        same_tables(old(inner)@, final(inner)@),
        final(inner)@.holders == old(inner)@.holders,
{
}

/// An owner process starts once, keeps its time to live, and ends as its receiving thread did.
pub proof fn owner_starts_once(
    ttl: Ttl,
    fresh: DaemonOwner,
    first: &mut DaemonOwner,
    second: &mut DaemonOwner,
    starts: (Result<(), Error>, Result<(), Error>),
    outcome: Option<Result<(), Error>>,
    joined: Result<(), Error>,
)
    requires
        call_ensures(DaemonOwner::new, (ttl,), fresh),
        *old(first) == fresh,
        call_ensures(DaemonOwner::start, (first,), starts.0),
        *old(second) == *final(first),
        call_ensures(DaemonOwner::start, (second,), starts.1),
        call_ensures(DaemonOwner::joined, (outcome,), joined),
    ensures
        fresh.ttl == ttl,
        starts.0 is Ok,
        starts.1 == Err::<(), Error>(Error::Own(Reason::AlreadyStarted)),
        final(first).started && final(first).ttl == ttl,
        final(second).started && final(second).ttl == ttl,
        outcome matches Some(outcome) ==> joined == outcome,
        outcome is None ==> joined == Err::<(), Error>(Error::Own(Reason::ThreadJoin)),
{
}

/// The receiving loop serves what it receives, ends when the connection is closed, survives data that
/// makes no sense, and ends with any other failure.
pub proof fn receiving_loop_goes_on<F>(
    received: Result<(Message<F>, F), Error>,
    reception: Reception<F>,
)
    requires
        call_ensures(owner_receiving_loop::<F>, (received,), reception),
    ensures
        received matches Ok((message, channel)) ==> reception == Reception::Serve(message, channel),
        received matches Err(error) ==> {
            let kind = error.kind();
            let senseless = kind == ErrorKind::UnexpectedEof || kind == ErrorKind::InvalidInput || kind
                == ErrorKind::InvalidData;
            &&& kind == ErrorKind::BrokenPipe ==> reception == Reception::<F>::End(Ok(()))
            &&& senseless ==> reception == Reception::<F>::Skip
            &&& kind != ErrorKind::BrokenPipe && !senseless ==> reception == Reception::<F>::End(
                Err(error),
            )
        },
{
}

/// The coordinator starts an owner process with the time to live that was asked for, and answers with
/// its socket on the channel of the request. It ends when the connection is closed, and on failures.
pub proof fn coordinator_starts_what_is_asked<F>(
    spawner: OwnerSpawner,
    received: Result<(RequestSpawnOwner, F), Error>,
    step: SpawnerStep<F>,
    spawned: Result<F, Error>,
    reply: Result<SpawnReply<F>, Error>,
)
    requires
        call_ensures(OwnerSpawner::run::<F>, (&spawner, received), step),
        call_ensures(OwnerSpawner::spawned::<F>, (&spawner, spawned), reply),
    ensures
        received matches Ok((request, channel)) ==> step == SpawnerStep::Spawn(request.ttl, channel),
        received matches Err(error) ==> step == SpawnerStep::<F>::End(
            if error.kind() == ErrorKind::BrokenPipe {
                Ok(())
            } else {
                Err(error)
            },
        ),
        spawned matches Ok(socket) ==> (reply matches Ok(reply) && reply.message == Ok::<(), Errno>(())
            && reply.fds@.len() == 1 && reply.fds@[0] == socket),
        spawned matches Err(error) ==> reply == Err::<SpawnReply<F>, Error>(error),
{
}

/// Whatever is served, the files and pending locks that the request does not name stay as they are.
pub proof fn others_are_left_alone<F>(
    inner: &mut DaemonOwnerInner,
    codes: SystemCodes,
    message: Message<F>,
    token: u64,
    tracker: Result<(), Error>,
    service: Service<F>,
    id: u64,
)
    requires
        call_ensures(
            DaemonOwnerInner::serve::<F>,
            (inner, &codes, message, token, tracker),
            service,
        ),
    ensures
        old(inner)@.descriptors.contains_key(id) && message != Message::<F>::Unregister(
            Unregister { id },
        ) ==> final(inner)@.descriptors.contains_key(id) && final(inner)@.descriptors[id] == old(
            inner,
        )@.descriptors[id],
        old(inner)@.interrupts.contains_key(id) && message != Message::<F>::RemoveInterrupt(
            RemoveInterrupt { id },
        ) ==> final(inner)@.interrupts.contains_key(id) && final(inner)@.interrupts[id] == old(
            inner,
        )@.interrupts[id],
        final(inner)@.exited == old(inner)@.exited,
        final(inner)@.holders >= old(inner)@.holders,
{
}

} // verus!
