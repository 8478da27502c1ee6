//! Verified resource-binding layer for a GL rendering context: shader program
//! compilation and linking, source reflection of attribute and uniform
//! declarations, and vertex/index buffer upload.
//!
//! The context answers allocation, compile, link and location queries at its
//! own discretion; every call to it stands behind a trusted wrapper in `gl`,
//! and the logic around those calls is verified: the declaration scan
//! (`reflect`), the location tables (`table`), the construction flow with its
//! error reporting (`shader`, `mesh`, `error`), and the upload payloads
//! (`mesh`).

pub mod error;
pub mod gl;
pub mod mesh;
pub mod reflect;
pub mod shader;
pub mod table;
