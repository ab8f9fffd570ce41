//! A hash-chained, append-only ledger whose blocks are admitted by proof of work
//! (`block`, `chain`, with `digest` and `decimal` beneath them), together with a set of
//! small verified utilities: integer sequences, text parsing and rendering, and simple
//! state holders.

pub mod decimal;
pub mod digest;
pub mod block;
pub mod chain;

pub mod callbacks;
pub mod credit;
pub mod friends;
pub mod generics;
pub mod linked;
pub mod math;
pub mod numbers;
pub mod people;
pub mod profiles;
pub mod responses;
pub mod services;
pub mod shapes;
pub mod status;
