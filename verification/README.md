# ulockmgr

Passthrough file locking and interruption for file systems in user space on Linux.

The system ties file locks to processes. A file system that locks files for others therefore keeps
one process per lock owner, which holds the files and locks them on request. These owner processes
exit when they are no longer used. A file is registered before it is locked. Unregistering it drops
its locks and interrupts those that are still waited for.

- `src/` is the library, verified with Verus. It composes and reads the messages between the
  processes, keeps their tables, and decides after each event what comes next.
  - `types`, `error`, `helpers`: locks, failures and the numbers that the system gives them
  - `wire`, `messages`, `frame`: payloads, requests and answers, and how they travel
  - `table`, `tracker`, `waiter`: ids of live resources, threads that can be interrupted, waits
  - `owner`, `owner_spawner`, `processes`: the owner process, the coordinator that starts it, and
    their command lines
  - `client`, `manager`: the user's side of a lock, and the search for an owner process
  - `dialogue`: what holds of a user and an owner process together
- `app/` is the program around it. It owns the sockets, files, threads and signal masks, performs
  what the library decides, and reports the outcome back.
- `tests/` runs the library on concrete values.
