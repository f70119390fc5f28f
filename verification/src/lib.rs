pub mod errors;
pub mod invocation;
pub mod laws;
pub mod session;
