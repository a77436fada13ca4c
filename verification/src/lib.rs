//! Projection: a command-line project tracker managing two record kinds,
//! goals and kanban tasks, each persisted as one file per record.
//!
//! This crate is the verified core: the record data model, the binary codec
//! with a proved round-trip, the path conventions of the record store, and
//! every service operation (add / remove / edit / complete / move / extend /
//! schedule / listing) as a function from plain values to plain values with a
//! contract. File and console I/O stays with the surrounding program, which
//! loads bytes, calls into this crate, and writes bytes back.

pub mod codec;
pub mod error;
pub mod goal;
pub mod init;
pub mod kanban;
pub mod parsers;
pub mod program_vars;
pub mod records;
pub mod store;
pub mod text;
