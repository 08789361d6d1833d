//! Verified core of a public submission and media intake service.
//!
//! The library holds the logic of the pipeline: text sanitization,
//! field validation, the CAPTCHA gate decisions, the upload acceptance
//! policy, and a model of the persistent store with its invariants.
//! I/O (HTTP routing, the verification endpoint, the filesystem and the
//! relational store) lives outside, in the surrounding application.

pub mod captcha;
pub mod media;
pub mod service;
pub mod store;
pub mod text;
pub mod validate;
