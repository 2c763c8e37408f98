//! The worker of a primary-worker mempool: how its tasks are wired together when it
//! boots, how its listeners run and stop, and how it answers the messages of clients,
//! of other workers and of its primary.
//!
//! Everything here decides on plain values. The tasks themselves, the channels between
//! them and the network are run by whoever embeds the library.

pub mod address;
pub mod booted;
pub mod cache;
pub mod keys;
pub mod payload;
pub mod primary_messages;
pub mod receiver;
pub mod status;
pub mod task;
pub mod transactions;
pub mod wiring;
pub mod worker;
pub mod worker_messages;
