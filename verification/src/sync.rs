//! Locks between two owners.

pub mod bilock;
