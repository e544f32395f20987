//! A tree of named versions, each a directory with a record of its own.
//!
//! The library decides; the program around it reads, writes and asks. A record
//! is a [`config::Config`]. Creating a version ([`create`]) and installing one
//! ([`install`]) are engines: each hands out a [`protocol::Request`], is told
//! what came of it, and says what is next. [`model`] describes the tree that
//! the requests work on, and [`guarantees`] proves what whole operations do
//! to it.

pub mod answer;
pub mod config;
pub mod create;
pub mod dialogue;
pub mod error;
pub mod guarantees;
pub mod install;
pub mod model;
pub mod navigator;
pub mod protocol;
