//! Passthrough file locking for file systems in user space.
//!
//! The system ties locks to processes. A file system that locks files on behalf of others therefore
//! keeps one process per lock owner: the owner process, which holds the files and locks them on
//! request. A coordinator starts the owner processes, and a lock manager in the file system finds
//! and uses them.
//!
//! This library decides what each of them does. It composes and reads their messages, keeps their
//! tables, and says after each event what comes next. The program around it owns the sockets, files
//! and threads, performs what the library decides, and reports the outcome back.

pub mod client;
pub mod dialogue;
pub mod error;
pub mod frame;
pub mod helpers;
pub mod laws;
pub mod manager;
pub mod messages;
pub mod owner;
pub mod owner_spawner;
pub mod processes;
pub mod table;
pub mod tracker;
pub mod types;
pub mod waiter;
pub mod wire;
