//! A to-do list core: the item model, two storage back ends (an in-process
//! table and a remote task service spoken to over HTTPS), and the command
//! language of the console front end.
//!
//! Everything here is plain computation. Whoever embeds the library performs
//! the network calls and the console I/O and hands the results back.

pub mod decimal;
pub mod item;
pub mod lookup;
pub mod local;
pub mod google_tasks;
pub mod remote;
pub mod service;
pub mod words;
pub mod command;
