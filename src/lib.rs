//! Transfer-hook policy engine: decides whether a token transfer may proceed
//! by inspecting the other instructions of the enclosing transaction.
pub mod address;
pub mod dispatch;
pub mod error;
pub mod instruction;
pub mod laws;
pub mod policy;
pub mod rules;
pub mod side_record;
