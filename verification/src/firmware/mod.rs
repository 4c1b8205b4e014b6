//! Items of the standalone firmware image, which reports errors with its own
//! types and retries operations on a locked resource.

pub mod error;
pub mod ltr553;
