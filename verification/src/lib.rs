//! Personas, workstreams and project tasks of a personal planner: the
//! records, their vocabularies, and the commands that act on them.
//!
//! A [`store::Store`] holds the three tables as plain values, and every
//! command is a method on it: it checks what it is given, changes the
//! tables, and answers with a record, a confirmation or a
//! [`error::CommandError`]. Each contract is stated over the view of the
//! store, so what a command does to the tables can be read off its header.
//!
//! The library keeps nothing on disk. The shell around it hands over the
//! stored rows ([`store::Store::restore`]), runs one command, and writes
//! back the row that the command returned ([`rows`]).

pub mod text;
pub mod vocab;
pub mod schema;
pub mod model;
pub mod table;
pub mod error;
pub mod identity;
pub mod codec;
pub mod rows;
pub mod store;
pub mod load;
pub mod reply;
pub mod persona;
pub mod workstream;
pub mod task;
pub mod laws;
