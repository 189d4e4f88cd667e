//! Verified core of a monitor that measures the sustained throughput of
//! many blockchains.
//!
//! For each chain the monitor keeps a short suffix of the chain's blocks in
//! a store, derives the transactions per second over the trailing week from
//! it, and removes what has fallen out of that week. This crate holds the
//! rules of that work and proves them; it does no input or output of its
//! own. Importing, calculating and removing are tasks that hand their
//! driver one request at a time ([`task`]) and decide on each answer what
//! comes next ([`import`], [`calculate`], [`remove`]). What holds of every
//! run of a task against a store is stated and proved over a model of the
//! store ([`store`], [`run`]) in the modules whose names end in `_laws`,
//! and in [`import_links`] and [`import_chain`].
//!
//! Around the tasks stand the catalogue of chains ([`chain`]), the records
//! and their place in a file system ([`db`]), the waits and retries
//! ([`delay`], [`pace_setter`]), the jobs of the runner ([`jobs`]), and
//! what the adapter of each chain family makes of the answers of its
//! remote node ([`clients`]).

pub mod chain;
pub mod db;
pub mod task;
pub mod store;
pub mod run;
pub mod import;
pub mod import_laws;
pub mod import_links;
pub mod import_chain;
pub mod calculate;
pub mod calculate_laws;
pub mod remove;
pub mod remove_laws;
pub mod delay;
pub mod pace_setter;
pub mod jobs;
pub mod text;
pub mod hexadecimal;
pub mod json;
pub mod clients;
