//! The coordinator: it starts owner processes on request.

use crate::client::Reply;
use crate::error::{Errno, Error, ErrorKind};
use crate::manager::spawn_failure;
use crate::messages::{answer_is_received, answers, carries, Item, RequestSpawnOwner};
use crate::types::Ttl;
use vstd::prelude::*;

verus! {

/// What the coordinator does with what it received.
#[derive(Debug)]
pub enum SpawnerStep<F> {
    /// End, with this outcome.
    End(Result<(), Error>),
    /// Start an owner process with this time to live, and answer on the channel.
    Spawn(Ttl, F),
}

/// The answer to a request for an owner process, with the descriptors that go with it.
#[derive(Debug)]
pub struct SpawnReply<F> {
    pub message: Result<(), Errno>,
    pub fds: Vec<F>,
}

/// The coordinator, which starts owner processes on request.
#[derive(Debug, Clone, Copy, PartialEq, Eq, Structural)]
pub struct OwnerSpawner {}

impl OwnerSpawner {
    /// A coordinator.
    pub fn new() -> (spawner: OwnerSpawner)
        ensures
            spawner == (OwnerSpawner {  }),
    {
        OwnerSpawner {  }
    }

    /// Decides what the coordinator does with what it received. A closed socket ends it, and so does
    /// any failure.
    pub fn run<F>(&self, received: Result<(RequestSpawnOwner, F), Error>) -> (step: SpawnerStep<F>)
        ensures
            step == (match received {
                Ok((request, reply)) => SpawnerStep::Spawn(request.ttl, reply),
                Err(error) => if error.kind() == ErrorKind::BrokenPipe {
                    SpawnerStep::End(Ok(()))
                } else {
                    SpawnerStep::End(Err(error))
                },
            }),
    {
        match received {
            Ok((request, reply)) => SpawnerStep::Spawn(request.ttl, reply),
            Err(error) => if error.kind() == ErrorKind::BrokenPipe {
                SpawnerStep::End(Ok(()))
            } else {
                SpawnerStep::End(Err(error))
            },
        }
    }

    /// The answer once an owner process was started: its socket. A failure to start one ends the
    /// coordinator.
    pub fn spawned<F>(&self, spawned: Result<F, Error>) -> (reply: Result<SpawnReply<F>, Error>)
        ensures
            match spawned {
                Ok(socket) => reply matches Ok(reply) && reply.message == Ok::<(), Errno>(())
                    && reply.fds@ == seq![socket],
                Err(error) => reply == Err::<SpawnReply<F>, Error>(error),
            },
    {
        match spawned {
            Ok(socket) => {
                let mut fds: Vec<F> = Vec::new();
                fds.push(socket);
                Ok(SpawnReply { message: Ok(()), fds })
            },
            Err(error) => Err(error),
        }
    }
}

/// The lock manager accepts the coordinator's answer and gets the socket of the new owner process.
pub proof fn spawned_owner_reaches_manager<F>(
    socket: F,
    reply: SpawnReply<F>,
    bytes: Seq<u8>,
    fds: Vec<F>,
    item: Item<(), F>,
)
    requires
        reply.message == Ok::<(), Errno>(()),
        reply.fds@ == seq![socket],
        carries(bytes, reply.message),
        fds@ == reply.fds@,
        answers::<RequestSpawnOwner, F>(bytes, fds, item),
    ensures
        item == Some(Ok::<_, Error>(Ok::<_, i32>(((), fds)))),
        spawn_failure(Reply::<Vec<F>>::Ok(Ok(fds))) is None,
        fds@[0] == socket,
{
    answer_is_received::<RequestSpawnOwner, F>(reply.message, bytes, fds, item);
}

} // verus!
