//! A verified service layer over a naive Bayes text classifier.
//!
//! The classifier itself (tokenization, probability estimation, scoring) is an
//! external collaborator and stays a black box behind a small trusted boundary
//! in [`model`]. What this library states and proves is the layer that makes
//! such a classifier safe to expose to many callers: authenticating each
//! request against an immutable registry ([`registry`], [`auth`]), and a model
//! store whose train protocol never publishes a torn or lost update and whose
//! check path never mutates the committed state ([`store`], [`service`]).

pub mod auth;
pub mod errors;
pub mod model;
pub mod registry;
pub mod service;
pub mod store;
