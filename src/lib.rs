//! Transaction coordination for a to-do service: capabilities to reach a
//! database, a verified state machine that decides when a transaction commits,
//! and the domain rules around users and tasks.
pub mod external_connections;
pub mod transaction;
pub mod domain;
pub mod dto;
pub mod entity;
pub mod persistence;
pub mod routing_utils;
pub mod api;
