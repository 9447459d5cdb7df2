//! Patch transactions: which files a patch touches under the path policy,
//! the patch helper's answer, version checks and rollback decisions.

pub mod plan;
pub mod helper;
pub mod txn;
