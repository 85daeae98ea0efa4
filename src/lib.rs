//! Credentialed, socket-backed communication sessions: identity and
//! classification fields, the open/closed state, and the decisions that
//! closing and sending make over the session's descriptor.
pub mod boundary;
pub mod laws;
pub mod session;
pub mod status;
