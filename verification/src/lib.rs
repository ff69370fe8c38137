//! A test-execution harness core: a session registry owning simulated
//! blockchain state, a host-call bridge exposing native operations to
//! running scripts, and the bootstrap/lifecycle protocol that surrounds
//! each script execution context.

pub mod bootstrap;
pub mod bridge;
pub mod chain;
pub mod driver;
pub mod errors;
pub mod lifecycle;
pub mod registry;
pub mod sim;
