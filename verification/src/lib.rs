//! Inference domain and session management for a multi-stage synthesis
//! pipeline, plus the user-dictionary word type that feeds its text front end.
//!
//! A *domain* is a closed set of operations (pipeline stages), each statically
//! paired with a typed input and output tensor signature.  A *session set*
//! loads one model per operation through a pluggable runtime, validates the
//! model's reported tensor signatures against the declared ones once at
//! construction, and afterwards hands out cheap, typed *session cells* that
//! execute one operation each under a per-operation exclusive lock.

pub mod domain;
pub mod ext;
pub mod infer;
pub mod part_of_speech;
pub mod runtime;
pub mod session_set;
pub mod signature;
pub mod talk;
pub mod tensor;
pub mod text;
pub mod word;
