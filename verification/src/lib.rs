//! A verified descriptor of the relational "company" table together with a
//! small in-memory store model that enforces the descriptor's constraints:
//! primary-key uniqueness of `id`, uniqueness of `email`, foreign keys from
//! `zone` and `community_area` to the zone table, and the no-action policy on
//! updates and deletes of referenced zone rows.

pub mod descriptor;
pub mod store;
