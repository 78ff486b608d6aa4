//! Backend logic of a small desktop front-end: a greeting, and the rules of
//! one invocation of a marketplace search endpoint. The host does the
//! network's work; this library tells it what to do next and turns what came
//! of the exchange into a document or a classified failure.

pub mod greeting;
pub mod status;
pub mod failure;
pub mod document;
pub mod proxy;
pub mod invocation;
