//! Laws of the lock manager: which owner process a lock owner gets, and when one is replaced.

use crate::client::{Lockable, Owner, Reply};
use crate::error::{Error, ErrorKind, Reason};
use crate::laws::owners::{registration_as_heard, registration_is_heard};
use crate::manager::{
    cleanup_thread, AfterDoubt, AfterRegister, CleanupEvent, LockManager, Search, SearchStep, Spawned,
};
use crate::messages::{answer_is_received, Item, Message, Register, RequestSpawnOwner};
use crate::owner::{DaemonOwnerInner, Service};
use crate::types::{SystemCodes, Ttl};
use vstd::prelude::*;

verus! {

/// A lock manager starts without owner processes. New ones outlive their last use by five seconds.
pub proof fn new_manager_is_empty(manager: LockManager, token: u64)
    requires
        call_ensures(LockManager::build, (), manager),
        call_ensures(LockManager::next_token, (&manager,), token),
    ensures
        manager@.owners == Map::<u64, u64>::empty(),
        token == manager@.next_token,
        manager@.ttl.secs == 5,
        manager@.ttl.nanos == 0,
{
}

/// A search is for the lock owner that is asked for, with the time to live that is asked for or else
/// the usual one.
pub proof fn search_is_for_who_is_asked(
    manager: LockManager,
    owner_id: u64,
    ttl: Option<Ttl>,
    search: Search,
)
    requires
        call_ensures(LockManager::get_or_create_owner, (&manager, owner_id, ttl), search),
    ensures
        search.owner_id == owner_id,
        !search.new_owner,
        ttl matches Some(ttl) ==> search.ttl == ttl,
        ttl is None ==> search.ttl == manager@.ttl,
{
}

/// A lock owner that has an owner process gets that one, once it has answered, and whatever time to
/// live is asked for. One that was only just created to die at once is not asked. Only a lock owner
/// without one gets a new one, with the time to live that is asked for.
pub proof fn known_owner_is_tried_first(manager: LockManager, search: Search, step: SearchStep)
    requires
        call_ensures(LockManager::look_up, (&manager, &search), step),
    ensures
        manager@.owners.contains_key(search.owner_id) && (!search.new_owner || search.ttl.secs != 0
            || search.ttl.nanos != 0) ==> step == SearchStep::Ping(
            manager@.owners[search.owner_id],
        ),
        manager@.owners.contains_key(search.owner_id) && search.new_owner && search.ttl.secs == 0
            && search.ttl.nanos == 0 ==> step == SearchStep::Found(
            manager@.owners[search.owner_id],
        ),
        !manager@.owners.contains_key(search.owner_id) ==> step == SearchStep::Spawn(
            RequestSpawnOwner { ttl: search.ttl },
        ),
{
}

/// The coordinator's one socket becomes the owner process of the lock owner: later searches find it,
/// no other lock owner has it, and all others keep theirs.
pub proof fn created_owner_is_kept<F>(
    manager: &mut LockManager,
    search: &mut Search,
    fds: Vec<F>,
    spawned: Spawned<F>,
    later: Search,
    step: SearchStep,
    other: u64,
)
    requires
        old(manager)@.well_formed(),
        old(manager)@.next_token < u64::MAX,
        fds@.len() == 1,
        !old(manager)@.owners.contains_key(old(search).owner_id),
        call_ensures(
            LockManager::spawned::<F>,
            (manager, search, Reply::<Vec<F>>::Ok(Ok(fds))),
            spawned,
        ),
        later.owner_id == old(search).owner_id,
        !later.new_owner,
        call_ensures(LockManager::look_up, (&*final(manager), &later), step),
    ensures
        spawned.created matches Some((owner, socket)) && {
            &&& socket == fds@[0]
            &&& step == SearchStep::Ping(owner.token)
            &&& old(manager)@.owners.contains_key(other) ==> old(manager)@.owners[other]
                != owner.token
            &&& final(manager)@.owners == old(manager)@.owners.insert(
                old(search).owner_id,
                owner.token,
            )
            &&& spawned.step == (if old(search).ttl.secs == 0 && old(search).ttl.nanos == 0 {
                SearchStep::Found(owner.token)
            } else {
                SearchStep::Ping(owner.token)
            })
        },
        final(search).new_owner,
        final(search).owner_id == old(search).owner_id,
        final(search).ttl == old(search).ttl,
        final(manager)@.ttl == old(manager)@.ttl,
        final(manager)@.next_token > old(manager)@.next_token,
{
}

/// An answer of the coordinator that is no single socket ends the search, with the failure of either
/// side as it is, and changes nothing.
pub proof fn failed_spawn_ends_the_search<F>(
    manager: &mut LockManager,
    search: &mut Search,
    reply: Reply<Vec<F>>,
    spawned: Spawned<F>,
)
    requires
        !(reply matches Ok(Ok(fds)) && fds@.len() == 1),
        call_ensures(LockManager::spawned::<F>, (manager, search, reply), spawned),
    ensures
        reply matches Ok(Ok(_)) ==> spawned.step == SearchStep::Failed(
            Error::Own(Reason::ExpectedOneOwnerFd),
        ),
        reply matches Ok(Err(error)) ==> spawned.step == SearchStep::Failed(error),
        reply matches Err(error) ==> spawned.step == SearchStep::Failed(error),
        spawned.created is None,
        final(manager)@ == old(manager)@,
        *final(search) == *old(search),
{
}

/// A lock owner that has got an owner process in the meantime keeps it, and the new one is not used.
pub proof fn first_owner_is_kept<F>(
    manager: &mut LockManager,
    search: &mut Search,
    fds: Vec<F>,
    spawned: Spawned<F>,
    step: SearchStep,
)
    requires
        fds@.len() == 1,
        old(manager)@.owners.contains_key(old(search).owner_id),
        call_ensures(
            LockManager::spawned::<F>,
            (manager, search, Reply::<Vec<F>>::Ok(Ok(fds))),
            spawned,
        ),
        call_ensures(LockManager::look_up, (&*final(manager), &*old(search)), step),
    ensures
        spawned.step == step,
        !old(search).new_owner ==> step == SearchStep::Ping(
            old(manager)@.owners[old(search).owner_id],
        ),
        spawned.created is None,
        final(manager)@ == old(manager)@,
        *final(search) == *old(search),
{
}

/// An owner process that answers is found, and nothing changes. One that does not is removed, so that
/// the same search asks for a new one, and no other lock owner is touched.
pub proof fn silent_owner_is_replaced(
    manager: &mut LockManager,
    search: Search,
    token: u64,
    ping: Result<(), Error>,
    step: SearchStep,
    next: SearchStep,
    other: u64,
)
    requires
        call_ensures(LockManager::pinged, (manager, &search, token, ping), step),
        call_ensures(LockManager::look_up, (&*final(manager), &search), next),
    ensures
        ping is Ok ==> step == SearchStep::Found(token) && final(manager)@ == old(manager)@,
        ping is Err ==> step == SearchStep::Retry && next == SearchStep::Spawn(
            RequestSpawnOwner { ttl: search.ttl },
        ),
        other != search.owner_id ==> final(manager)@.owners.contains_key(other) == old(
            manager,
        )@.owners.contains_key(other),
        other != search.owner_id && old(manager)@.owners.contains_key(other) ==> final(
            manager
        )@.owners[other] == old(manager)@.owners[other],
        final(manager)@.next_token == old(manager)@.next_token,
        final(manager)@.ttl == old(manager)@.ttl,
{
}

/// Registering a file with an owner process that has decided to exit goes on with another one, from
/// the process's answer to the search that follows: the user never sees the failure, the process is
/// forgotten though it may still answer, and a new one is asked for.
pub proof fn exiting_owner_is_replaced<F>(
    inner: &mut DaemonOwnerInner,
    codes: SystemCodes,
    fd: F,
    file: u64,
    tracker: Result<(), Error>,
    service: Service<F>,
    bytes: Vec<u8>,
    fds: Vec<F>,
    item: Item<u64, F>,
    failure: spec_fn(i32) -> Error,
    kind: ErrorKind,
    owner: Owner,
    lockable: Result<Lockable, Error>,
    manager: &mut LockManager,
    search: Search,
    after: AfterRegister,
    step: SearchStep,
)
    requires
        old(inner)@.exited,
        call_ensures(
            DaemonOwnerInner::serve::<F>,
            (inner, &codes, Message::Register(Register { fd }), file, tracker),
            service,
        ),
        service matches Service::Keep(_, answer) && registration_is_heard(answer, bytes, fds, item),
        failure(32) == (Error::Os { errno: 32, kind }),
        registration_as_heard(item, failure) matches Some(reply) && call_ensures(
            Owner::register,
            (&owner, reply),
            lockable,
        ),
        old(manager)@.owners.contains_key(search.owner_id),
        old(manager)@.owners[search.owner_id] == owner.token,
        call_ensures(
            LockManager::register,
            (manager, search.owner_id, owner, lockable),
            after,
        ),
        call_ensures(LockManager::look_up, (&*final(manager), &search), step),
    ensures
        after == AfterRegister::Retry,
        step == SearchStep::Spawn(RequestSpawnOwner { ttl: search.ttl }),
{
    answer_is_received::<Register<F>, F>(service->Keep_1, bytes@, fds, item);
}

/// Registering a file ends with what the owner process answered. Only where the connection was closed
/// is the process asked whether it is alive, and only where it has decided to exit is it forgotten.
/// One that has taken its place, and all other lock owners, keep what they have.
pub proof fn registration_ends_with_its_answer(
    manager: &mut LockManager,
    owner_id: u64,
    owner: Owner,
    outcome: Result<Lockable, Error>,
    after: AfterRegister,
    other: u64,
)
    requires
        call_ensures(LockManager::register, (manager, owner_id, owner, outcome), after),
    ensures
        outcome is Ok ==> after == AfterRegister::Return(outcome),
        outcome matches Err(error) ==> {
            &&& error == Error::Own(Reason::OwnerExited) ==> after == AfterRegister::Retry
            &&& error != Error::Own(Reason::OwnerExited) && error.kind() == ErrorKind::BrokenPipe
                ==> after == AfterRegister::Ping(error)
            &&& error.kind() != ErrorKind::BrokenPipe ==> after == AfterRegister::Return(outcome)
        },
        after != AfterRegister::Retry ==> final(manager)@ == old(manager)@,
        old(manager)@.owners.contains_key(other) && (other != owner_id || old(manager)@.owners[other]
            != owner.token) ==> final(manager)@.owners.contains_key(other) && final(
            manager
        )@.owners[other] == old(manager)@.owners[other],
        final(manager)@.owners.contains_key(other) ==> old(manager)@.owners.contains_key(other),
        final(manager)@.next_token == old(manager)@.next_token,
        final(manager)@.ttl == old(manager)@.ttl,
{
}

/// A failed registration stands if the owner process is alive, and is tried again if it is dead.
pub proof fn doubt_is_settled_by_a_ping(
    manager: LockManager,
    error: Error,
    ping: Result<(), Error>,
    after: AfterDoubt,
)
    requires
        call_ensures(LockManager::doubted, (&manager, error, ping), after),
    ensures
        ping is Ok ==> after == AfterDoubt::Return(Err(error)),
        ping is Err ==> after == AfterDoubt::Retry,
{
}

/// The cleanup removes an owner process exactly if a ping of it failed.
pub proof fn cleanup_removes_the_silent(
    manager: &mut LockManager,
    pings: Vec<(u64, Result<(), Error>)>,
    id: u64,
    at: int,
)
    requires
        call_ensures(LockManager::retain, (manager, &pings), ()),
    ensures
        0 <= at < pings@.len() && pings@[at].1 is Err && old(manager)@.owners.contains_pair(
            id,
            pings@[at].0,
        ) ==> !final(manager)@.owners.contains_key(id),
        old(manager)@.owners.contains_key(id) && (forall|i: int|
            0 <= i < pings@.len() && (#[trigger] pings@[i]).0 == old(manager)@.owners[id]
                ==> pings@[i].1 is Ok) ==> final(manager)@.owners.contains_pair(
            id,
            old(manager)@.owners[id],
        ),
        final(manager)@.owners.contains_key(id) ==> old(manager)@.owners.contains_pair(
            id,
            final(manager)@.owners[id],
        ),
        final(manager)@.next_token == old(manager)@.next_token,
        final(manager)@.ttl == old(manager)@.ttl,
{
}

/// The cleanup thread works in intervals, until it is stopped.
pub proof fn cleanup_goes_on_until_stopped(event: CleanupEvent, go_on: bool)
    requires
        call_ensures(cleanup_thread, (event,), go_on),
    ensures
        event == CleanupEvent::TimedOut ==> go_on,
        event == CleanupEvent::Stopped ==> !go_on,
{
}

} // verus!
