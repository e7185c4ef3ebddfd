//! Stub generation for in-process services. An interface is read from a
//! trait declaration, checked, and turned into a request envelope whose
//! cases carry their reply slots, a client stub and a server dispatcher.
//! The transport that the generated pieces talk over, a queue of envelopes
//! with a one-shot reply slot per call, is modelled step by step, with its
//! laws proved.
pub mod model;
pub mod args;
pub mod check;
pub mod generator;
pub mod syntax;
pub mod expand;
pub mod transport;
pub mod reply;
pub mod exchange;

pub use expand::service;
