//! SQL generation core for a small object-relational mapper.
//!
//! The crate lowers a backend-agnostic query expression tree to a
//! parameterized SQL statement (text plus an ordered list of bound values),
//! assembles full `SELECT`/`INSERT`/`UPDATE` statement skeletons, and
//! resolves schema column defaults to concrete SQL values for migrations.

pub mod builders;
pub mod compiler;
pub mod laws;
pub mod query;
pub mod render;
pub mod schema;
pub mod values;

pub use values::SqlType;
pub use values::SqlVal;
pub use values::SqlValM;
