//! Authorization enforcement core: typed subjects, objects and actions, their
//! encodings as policy tuples, the role and access-level hierarchy handed to the
//! matching engine, the write-lock retry protocol, and the read-side calls into
//! the casbin engine.

pub mod act;
pub mod engine;
pub mod entity;
pub mod error;
pub mod policy;
pub mod publish;
pub mod retry;
