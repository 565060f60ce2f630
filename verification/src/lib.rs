//! A caching pool for resources that are expensive to construct, and a few
//! smaller pieces beside it.
//!
//! Consumers ask the [`pool::Pool`] for a resource by key. While a key is in
//! use every consumer shares one instance; when the last share is released the
//! instance is kept for a grace period and reused if somebody asks again in
//! time, and destroyed otherwise.
//!
//! - [`state`] is the pool as a state machine, [`pool`] the executable pool
//!   that follows it, and [`laws`] what is proved of every run.
//! - [`resource`] is the resource with its factory and destructor, which
//!   keep count in the [`ledger`].
//! - [`parser`], [`smart_arrays`], [`socket_writer`] with its [`receiver`],
//!   and [`stack_bomb`] stand on their own.

pub mod laws;
pub mod ledger;
pub mod parser;
pub mod pool;
pub mod receiver;
pub mod resource;
pub mod smart_arrays;
pub mod socket_writer;
pub mod stack_bomb;
pub mod state;
