//! The lock manager: it finds or creates the owner process of each lock owner.

use crate::client::{flatten, flattened, Lockable, Owner, Reply};
use crate::error::{Error, ErrorKind, Reason};
use crate::messages::RequestSpawnOwner;
use crate::table::KeyTable;
use crate::types::Ttl;
use vstd::prelude::*;

verus! {

/// What a lock manager knows.
#[verifier::ext_equal]
pub struct ManagerState {
    /// The token of the owner process of each lock owner.
    pub owners: Map<u64, u64>,
    /// The token of the next owner process.
    pub next_token: u64,
    /// How long new owner processes outlive their last use, where nothing else is asked for.
    pub ttl: Ttl,
}

impl ManagerState {
    /// No two lock owners share an owner process, and the next token has not been used.
    pub open spec fn well_formed(self) -> bool {
        &&& forall|id: u64| #[trigger]
            self.owners.contains_key(id) ==> self.owners[id] < self.next_token
        &&& forall|a: u64, b: u64| #[trigger]
            self.owners.contains_key(a) && #[trigger] self.owners.contains_key(b) && a != b
                ==> self.owners[a] != self.owners[b]
    }
}

/// The owner processes of a file system, under the ids of their lock owners. The lock manager gives
/// each a token of its own.
pub struct LockManager {
    owners: KeyTable,
    next_token: u64,
    ttl: Ttl,
}

impl View for LockManager {
    type V = ManagerState;

    closed spec fn view(&self) -> ManagerState {
        ManagerState { owners: self.owners@, next_token: self.next_token, ttl: self.ttl }
    }
}

/// A change to what a lock manager knows.
pub enum Change {
    /// This lock owner got a new owner process.
    Created(u64),
    /// The owner process of this lock owner did not answer.
    Died(u64),
    /// The owner process of this lock owner, with this token, has decided to exit.
    Exited(u64, u64),
    /// Owner processes were asked whether they are alive, with these outcomes.
    Cleaned(Seq<(u64, Result<(), Error>)>),
}

/// Whether a change can come about: an owner process is only created where there is none.
pub open spec fn possible(state: ManagerState, change: Change) -> bool {
    match change {
        Change::Created(owner_id) => !state.owners.contains_key(owner_id) && state.next_token
            < u64::MAX,
        _ => true,
    }
}

/// What a lock manager knows after a change.
pub open spec fn changed(state: ManagerState, change: Change) -> ManagerState {
    match change {
        Change::Created(owner_id) => ManagerState {
            owners: state.owners.insert(owner_id, state.next_token),
            next_token: (state.next_token + 1) as u64,
            ..state
        },
        Change::Died(owner_id) => ManagerState { owners: state.owners.remove(owner_id), ..state },
        Change::Exited(owner_id, token) => if state.owners.contains_key(owner_id)
            && state.owners[owner_id] == token {
            ManagerState { owners: state.owners.remove(owner_id), ..state }
        } else {
            state
        },
        Change::Cleaned(pings) => ManagerState { owners: surviving(state.owners, pings), ..state },
    }
}

/// A search for an owner process that is alive.
#[derive(Debug, Clone, Copy, PartialEq, Eq, Structural)]
pub struct Search {
    /// The lock owner.
    pub owner_id: u64,
    /// How long a new owner process outlives its last use.
    pub ttl: Ttl,
    /// Whether the search has created an owner process.
    pub new_owner: bool,
}

/// How a search goes on.
#[derive(Debug, Clone, Copy, PartialEq, Eq, Structural)]
pub enum SearchStep {
    /// Ask the coordinator for a new owner process.
    Spawn(RequestSpawnOwner),
    /// Find out whether this owner process is alive.
    Ping(u64),
    /// Look the lock owner up again.
    Retry,
    /// End with this owner process.
    Found(u64),
    /// End with this failure.
    Failed(Error),
}

/// How a search goes on with an owner process. One that was created to die at once is not asked
/// whether it is alive.
pub open spec fn after_candidate(search: Search, token: u64) -> SearchStep {
    if search.ttl == (Ttl { secs: 0, nanos: 0 }) && search.new_owner {
        SearchStep::Found(token)
    } else {
        SearchStep::Ping(token)
    }
}

/// How a search starts, given the owner process of each lock owner.
pub open spec fn after_look_up(owners: Map<u64, u64>, search: Search) -> SearchStep {
    if owners.contains_key(search.owner_id) {
        after_candidate(search, owners[search.owner_id])
    } else {
        SearchStep::Spawn(RequestSpawnOwner { ttl: search.ttl })
    }
}

/// The sockets that came with the answer of the coordinator must be one.
pub open spec fn spawn_failure<F>(reply: Reply<Vec<F>>) -> Option<Error> {
    match flattened(reply) {
        Err(error) => Some(error),
        Ok(fds) => if fds@.len() == 1 {
            None
        } else {
            Some(Error::Own(Reason::ExpectedOneOwnerFd))
        },
    }
}

/// What a search does with the coordinator's answer: how it goes on, and the new owner process with
/// its socket, if it is used.
#[derive(Debug)]
pub struct Spawned<F> {
    pub step: SearchStep,
    pub created: Option<(Owner, F)>,
}

/// What the cleanup thread waited for.
#[derive(Debug, Clone, Copy, PartialEq, Eq, Structural)]
pub enum CleanupEvent {
    /// A second has passed.
    TimedOut,
    /// A message arrived, or the lock manager is gone.
    Stopped,
}

/// Whether some ping of this owner process failed.
pub open spec fn found_dead(pings: Seq<(u64, Result<(), Error>)>, token: u64) -> bool {
    exists|i: int| 0 <= i < pings.len() && (#[trigger] pings[i]).0 == token && pings[i].1 is Err
}

/// The owner processes that are left after those that did not answer are gone.
pub open spec fn surviving(
    owners: Map<u64, u64>,
    pings: Seq<(u64, Result<(), Error>)>,
) -> Map<u64, u64> {
    Map::new(
        |id: u64| owners.contains_key(id) && !found_dead(pings, owners[id]),
        |id: u64| owners[id],
    )
}

/// How registering a file goes on after the owner process has answered.
#[derive(Debug, Clone, Copy, PartialEq, Eq)]
pub enum AfterRegister {
    /// End with this outcome.
    Return(Result<Lockable, Error>),
    /// Find out whether the owner process is alive. If so, end with this failure.
    Ping(Error),
    /// Search for an owner process, and register again.
    Retry,
}

/// How registering a file goes on after the owner process has answered.
pub open spec fn after_register(outcome: Result<Lockable, Error>) -> AfterRegister {
    match outcome {
        Ok(_) => AfterRegister::Return(outcome),
        Err(error) => if error == Error::Own(Reason::OwnerExited) {
            AfterRegister::Retry
        } else if error.kind() == ErrorKind::BrokenPipe {
            AfterRegister::Ping(error)
        } else {
            AfterRegister::Return(outcome)
        },
    }
}

/// How registering a file goes on after a doubtful owner process was asked whether it is alive.
#[derive(Debug, Clone, Copy, PartialEq, Eq)]
pub enum AfterDoubt {
    /// End with this outcome.
    Return(Result<Lockable, Error>),
    /// Search for an owner process, and register again.
    Retry,
}

impl LockManager {
    /// A lock manager without owner processes. New ones outlive their last use by five seconds.
    pub fn build() -> (manager: LockManager)
        ensures
            manager@ == (ManagerState {
                owners: Map::empty(),
                next_token: 0,
                ttl: Ttl { secs: 5, nanos: 0 },
            }),
            manager@.well_formed(),
    {
        LockManager { owners: KeyTable::new(), next_token: 0, ttl: Ttl { secs: 5, nanos: 0 } }
    }

    /// The token of the next owner process.
    pub fn next_token(&self) -> (token: u64)
        ensures
            token == self@.next_token,
    {
        self.next_token
    }

    /// Begins the search for the owner process of a lock owner.
    pub fn get_or_create_owner(&self, owner_id: u64, ttl: Option<Ttl>) -> (search: Search)
        ensures
            search == (Search {
                owner_id,
                ttl: match ttl {
                    Some(ttl) => ttl,
                    None => self@.ttl,
                },
                new_owner: false,
            }),
    {
        let ttl = match ttl {
            Some(ttl) => ttl,
            None => self.ttl,
        };
        Search { owner_id, ttl, new_owner: false }
    }

    /// Looks the lock owner up.
    pub fn look_up(&self, search: &Search) -> (step: SearchStep)
        ensures
            step == after_look_up(self@.owners, *search),
    {
        match self.owners.get(search.owner_id) {
            Some(token) => search.candidate(token),
            None => SearchStep::Spawn(RequestSpawnOwner::new(search.ttl)),
        }
    }

    /// Goes on with the coordinator's answer to the request for a new owner process. If the lock
    /// owner has got one in the meantime, that one is used.
    pub fn spawned<F>(&mut self, search: &mut Search, reply: Reply<Vec<F>>) -> (spawned: Spawned<F>)
        requires
            old(self)@.well_formed(),
            old(self)@.next_token < u64::MAX,
        ensures
            match spawn_failure(reply) {
                Some(error) => {
                    &&& spawned.step == SearchStep::Failed(error)
                    &&& spawned.created is None
                    &&& final(self)@ == old(self)@
                    &&& *final(search) == *old(search)
                },
                None => if old(self)@.owners.contains_key(old(search).owner_id) {
                    &&& spawned.step == after_look_up(old(self)@.owners, *old(search))
                    &&& spawned.created is None
                    &&& final(self)@ == old(self)@
                    &&& *final(search) == *old(search)
                } else {
                    let token = old(self)@.next_token;
                    &&& *final(search) == (Search { new_owner: true, ..*old(search) })
                    &&& final(self)@ == changed(old(self)@, Change::Created(old(search).owner_id))
                    &&& spawned.step == after_candidate(*final(search), token)
                    &&& reply matches Ok(Ok(fds)) && spawned.created == Some(
                        (Owner { token }, fds@[0]),
                    )
                },
            },
            final(self)@.well_formed(),
    {
        let mut fds = match flatten(reply) {
            Ok(fds) => fds,
            Err(error) => return Spawned { step: SearchStep::Failed(error), created: None },
        };
        if fds.len() != 1 {
            return Spawned {
                step: SearchStep::Failed(Error::Own(Reason::ExpectedOneOwnerFd)),
                created: None,
            };
        }
        let token = self.next_token;
        if !self.owners.insert_vacant(search.owner_id, token) {
            return Spawned { step: self.look_up(search), created: None };
        }
        self.next_token = token + 1;
        let socket = fds.remove(0);
        search.new_owner = true;
        Spawned { step: search.candidate(token), created: Some((Owner { token }, socket)) }
    }

    /// Goes on after an owner process was asked whether it is alive. A dead one is removed, and the
    /// search starts again.
    pub fn pinged(&mut self, search: &Search, token: u64, ping: Result<(), Error>) -> (step:
        SearchStep)
        requires
            old(self)@.well_formed(),
        ensures
            match ping {
                Ok(()) => step == SearchStep::Found(token) && final(self)@ == old(self)@,
                Err(_) => step == SearchStep::Retry && final(self)@ == changed(
                    old(self)@,
                    Change::Died(search.owner_id),
                ),
            },
            final(self)@.well_formed(),
    {
        match ping {
            Ok(()) => SearchStep::Found(token),
            Err(_) => {
                self.owners.remove(search.owner_id);
                SearchStep::Retry
            },
        }
    }

    /// Goes on after an owner process was asked to register a file. One that has decided to exit is
    /// forgotten, though it may still answer, and another one is searched for. A closed connection
    /// alone does not tell that the owner process is dead.
    pub fn register(
        &mut self,
        owner_id: u64,
        owner: Owner,
        outcome: Result<Lockable, Error>,
    ) -> (next: AfterRegister)
        requires
            old(self)@.well_formed(),
        ensures
            next == after_register(outcome),
            final(self)@ == (if next is Retry {
                changed(old(self)@, Change::Exited(owner_id, owner.token))
            } else {
                old(self)@
            }),
            final(self)@.well_formed(),
    {
        let error = match outcome {
            Ok(lockable) => return AfterRegister::Return(Ok(lockable)),
            Err(error) => error,
        };
        match error {
            Error::Own(Reason::OwnerExited) => {
                if self.owners.get(owner_id) == Some(owner.token) {
                    self.owners.remove(owner_id);
                }
                AfterRegister::Retry
            },
            _ => if error.kind() == ErrorKind::BrokenPipe {
                AfterRegister::Ping(error)
            } else {
                AfterRegister::Return(Err(error))
            },
        }
    }

    /// Goes on after an owner process that closed the connection was asked whether it is alive.
    pub fn doubted(&self, error: Error, ping: Result<(), Error>) -> (next: AfterDoubt)
        ensures
            next == (if ping is Ok {
                AfterDoubt::Return(Err(error))
            } else {
                AfterDoubt::Retry
            }),
    {
        match ping {
            Ok(()) => AfterDoubt::Return(Err(error)),
            Err(_) => AfterDoubt::Retry,
        }
    }

    /// Removes the owner processes that did not answer.
    pub fn retain(&mut self, pings: &Vec<(u64, Result<(), Error>)>)
        requires
            old(self)@.well_formed(),
        ensures
            final(self)@ == changed(old(self)@, Change::Cleaned(pings@)),
            final(self)@.well_formed(),
    {
        let mut dead: Vec<u64> = Vec::new();
        for i in 0..pings.len()
            invariant
                forall|token: u64| #[trigger]
                    dead@.contains(token) <==> found_dead(pings@.take(i as int), token),
        {
            let ghost before = dead@;
            let ghost earlier = pings@.take(i as int);
            let ghost now = pings@.take(i + 1);
            let (token, ping) = pings[i];
            if ping.is_err() {
                dead.push(token);
            }
            proof {
                assert(now =~= earlier.push(pings@[i as int]));
                assert forall|other: u64| #[trigger]
                    dead@.contains(other) <==> found_dead(now, other) by {
                    assert(before.contains(other) <==> found_dead(earlier, other));
                    if dead@.contains(other) {
                        if before.contains(other) {
                            let k = choose|k: int|
                                0 <= k < earlier.len() && (#[trigger] earlier[k]).0 == other
                                    && earlier[k].1 is Err;
                            assert(now[k] == earlier[k]);
                        } else {
                            assert(dead@ == before.push(token));
                            assert(other == token);
                            assert(now[i as int] == pings@[i as int]);
                        }
                    }
                    if found_dead(now, other) {
                        let k = choose|k: int|
                            0 <= k < now.len() && (#[trigger] now[k]).0 == other && now[k].1 is Err;
                        if k < i {
                            assert(earlier[k] == now[k]);
                            let at = choose|at: int| 0 <= at < before.len() && before[at] == other;
                            assert(dead@[at] == other);
                        } else {
                            assert(dead@.last() == other);
                        }
                    }
                }
            }
        }
        assert(pings@.take(pings@.len() as int) =~= pings@);
        self.owners.discard(&dead);
        assert(self@.owners =~= surviving(old(self)@.owners, pings@));
    }
}

impl Search {
    /// Goes on with an owner process.
    fn candidate(&self, token: u64) -> (step: SearchStep)
        ensures
            step == after_candidate(*self, token),
    {
        if self.ttl.is_zero() && self.new_owner {
            SearchStep::Found(token)
        } else {
            SearchStep::Ping(token)
        }
    }
}

/// Decides whether the cleanup thread goes on, and looks for owner processes that are dead.
pub fn cleanup_thread(event: CleanupEvent) -> (go_on: bool)
    ensures
        go_on == (event == CleanupEvent::TimedOut),
{
    match event {
        CleanupEvent::TimedOut => true,
        CleanupEvent::Stopped => false,
    }
}

/// Whether a search that goes on with `step` ends with an owner process. `ping` is the outcome of its
/// ping, if there is one.
pub open spec fn ends_with(step: SearchStep, ping: Result<(), Error>, token: u64) -> bool {
    ||| step == SearchStep::Found(token)
    ||| step == SearchStep::Ping(token) && ping is Ok
}

/// A search ends only with an owner process that has just answered, or with one that it created to
/// die at once.
pub proof fn found_owner_is_alive(
    owners: Map<u64, u64>,
    search: Search,
    ping: Result<(), Error>,
    token: u64,
)
    requires
        ends_with(after_look_up(owners, search), ping, token),
    ensures
        owners.contains_key(search.owner_id) && owners[search.owner_id] == token,
        ping is Ok || (search.new_owner && search.ttl.total_nanos() == 0),
{
}

/// A dead owner process is replaced: once its ping has failed, the search asks for a new one, and
/// leaves the owner processes of other lock owners alone.
pub proof fn dead_owner_is_replaced(before: ManagerState, search: Search, other: u64)
    ensures
        ({
            let after = changed(before, Change::Died(search.owner_id));
            &&& after_look_up(after.owners, search) == SearchStep::Spawn(
                RequestSpawnOwner { ttl: search.ttl },
            )
            &&& other != search.owner_id ==> {
                &&& before.owners.contains_key(other) == after.owners.contains_key(other)
                &&& before.owners.contains_key(other) ==> before.owners[other]
                    == after.owners[other]
            }
        }),
{
}

/// An owner process that has decided to exit is replaced: registering with it does not end, and the
/// next search asks for a new owner process, or goes on with one that has taken its place meanwhile.
pub proof fn exited_owner_is_replaced(before: ManagerState, search: Search, owner: Owner)
    ensures
        after_register(Err(Error::Own(Reason::OwnerExited))) == AfterRegister::Retry,
        ({
            let after = changed(before, Change::Exited(search.owner_id, owner.token));
            &&& after.owners.contains_key(search.owner_id) ==> after.owners[search.owner_id]
                != owner.token
            &&& before.owners.contains_key(search.owner_id) && before.owners[search.owner_id]
                == owner.token ==> after_look_up(after.owners, search) == SearchStep::Spawn(
                RequestSpawnOwner { ttl: search.ttl },
            )
        }),
{
}

/// An owner process that was created is used again by later searches for the same lock owner, as
/// long as it answers.
pub proof fn created_owner_is_used_again(before: ManagerState, later: Search)
    requires
        !later.new_owner,
    ensures
        after_look_up(changed(before, Change::Created(later.owner_id)).owners, later)
            == SearchStep::Ping(before.next_token),
{
}

/// The cleanup removes exactly the owner processes that did not answer.
pub proof fn cleanup_spares_the_living(
    owners: Map<u64, u64>,
    pings: Seq<(u64, Result<(), Error>)>,
    id: u64,
)
    ensures
        surviving(owners, pings).contains_key(id) <==> owners.contains_key(id) && !found_dead(
            pings,
            owners[id],
        ),
        surviving(owners, pings).contains_key(id) ==> surviving(owners, pings)[id] == owners[id],
        (forall|i: int| 0 <= i < pings.len() ==> (#[trigger] pings[i]).1 is Ok) ==> surviving(
            owners,
            pings,
        ) == owners,
{
    if forall|i: int| 0 <= i < pings.len() ==> (#[trigger] pings[i]).1 is Ok {
        assert(surviving(owners, pings) =~= owners);
    }
}

/// What a lock manager knows after some changes.
pub open spec fn history(state: ManagerState, changes: Seq<Change>) -> ManagerState
    decreases changes.len(),
{
    if changes.len() == 0 {
        state
    } else {
        changed(history(state, changes.drop_last()), changes.last())
    }
}

/// Whether some changes can come about, one after the other.
pub open spec fn all_possible(state: ManagerState, changes: Seq<Change>) -> bool
    decreases changes.len(),
{
    changes.len() > 0 ==> {
        &&& all_possible(state, changes.drop_last())
        &&& possible(history(state, changes.drop_last()), changes.last())
    }
}

/// Whether a change leaves the owner process of a lock owner alone: it was not found dead, and has
/// not decided to exit.
pub open spec fn spares(change: Change, owner_id: u64, token: u64) -> bool {
    match change {
        Change::Created(_) => true,
        Change::Died(id) => id != owner_id,
        Change::Exited(id, exited) => id != owner_id || exited != token,
        Change::Cleaned(pings) => !found_dead(pings, token),
    }
}

/// Whatever happens, no two lock owners share an owner process, and the token that comes next is new.
pub proof fn owners_are_not_shared(state: ManagerState, changes: Seq<Change>)
    requires
        state.well_formed(),
        all_possible(state, changes),
    ensures
        history(state, changes).well_formed(),
        history(state, changes).next_token >= state.next_token,
    decreases changes.len(),
{
    if changes.len() > 0 {
        owners_are_not_shared(state, changes.drop_last());
    }
}

/// Whatever else happens, a lock owner keeps its owner process until that is found dead or decides
/// to exit.
pub proof fn living_owner_is_kept(state: ManagerState, changes: Seq<Change>, owner_id: u64)
    requires
        state.owners.contains_key(owner_id),
        all_possible(state, changes),
        forall|i: int|
            0 <= i < changes.len() ==> spares(#[trigger] changes[i], owner_id, state.owners[owner_id]),
    ensures
        history(state, changes).owners.contains_key(owner_id),
        history(state, changes).owners[owner_id] == state.owners[owner_id],
    decreases changes.len(),
{
    if changes.len() > 0 {
        let earlier = changes.drop_last();
        assert forall|i: int| 0 <= i < earlier.len() implies spares(
            #[trigger] earlier[i],
            owner_id,
            state.owners[owner_id],
        ) by {
            assert(earlier[i] == changes[i]);
        }
        living_owner_is_kept(state, earlier, owner_id);
        assert(spares(changes[changes.len() - 1], owner_id, state.owners[owner_id]));
    }
}

/// There is one owner process per lock owner. A lock owner whose owner process still answers gets it
/// again, whatever has happened meanwhile and whatever time to live is asked for, and no other is
/// started. Another lock owner never gets it, neither an owner process that is there nor a new one.
pub proof fn one_owner_process_per_lock_owner(
    state: ManagerState,
    changes: Seq<Change>,
    search: Search,
    other: Search,
    ping: Result<(), Error>,
    found: u64,
)
    requires
        state.well_formed(),
        state.owners.contains_key(search.owner_id),
        all_possible(state, changes),
        forall|i: int|
            0 <= i < changes.len() ==> spares(
                #[trigger] changes[i],
                search.owner_id,
                state.owners[search.owner_id],
            ),
        !search.new_owner,
        other.owner_id != search.owner_id,
    ensures
        ({
            let later = history(state, changes);
            let token = state.owners[search.owner_id];
            &&& after_look_up(later.owners, search) == SearchStep::Ping(token)
            &&& ends_with(after_look_up(later.owners, search), Ok(()), token)
            &&& ends_with(after_look_up(later.owners, other), ping, found) ==> found != token
            &&& later.next_token != token
        }),
{
    owners_are_not_shared(state, changes);
    living_owner_is_kept(state, changes, search.owner_id);
    let later = history(state, changes);
    assert(later.owners.contains_key(search.owner_id));
    if later.owners.contains_key(other.owner_id) {
        assert(later.owners[other.owner_id] != later.owners[search.owner_id]);
    }
}

} // verus!
