//! Document synchronization and diagnostics for a Solidity language server.
pub mod diagnostic;
pub mod export;
pub mod linter;
pub mod store;
pub mod text;
pub mod workspace;
