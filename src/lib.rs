//! User registration: password credentials and the transactional
//! create-user flow, stated as a state machine that a driver runs
//! against a relational store.

pub mod credential;
pub mod registration;
