//! Core logic of a background process manager that advertises named network
//! services on the local network.
//!
//! The library holds everything that can be stated and proved: the typed
//! service table and its validation from a raw configuration document, port
//! resolution for auto-assigned ports, the plan of registration workers to
//! spawn, the classification of host control notifications, and the
//! supervisor's lifecycle state machine. Reading the configuration file,
//! binding sockets, spawning threads and talking to the host service manager
//! are left to an unverified shell around this crate, which feeds plain
//! values in and carries the returned decisions out.

pub mod control;
pub mod lifecycle;
pub mod service;
pub mod settings;
pub mod supervisor;
pub mod worker;
