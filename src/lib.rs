//! Sparse-aware file copying primitives: the decisions that turn the raw
//! results of `copy_file_range`, `lseek`, `fstat` and `ftruncate` into typed
//! outcomes, and the sparseness estimate taken from a file's status.

pub mod os;
pub mod sys;
