//! A verified transaction handler that updates the validity predicate (VP)
//! attached to a ledger account.
//!
//! The handler receives an authenticated envelope, decodes its payload into a
//! typed update request, retrieves the new policy bytecode from the
//! transaction's out-of-band attachment, and delegates the actual mutation to
//! the host ledger's policy-update primitive.  The host environment is modeled
//! as a capability object ([`host::HostContext`]) that records the calls made
//! through it, so the handler's contract can state exactly which host calls an
//! invocation performs.

pub mod codec;
pub mod envelope;
pub mod handler;
pub mod host;
