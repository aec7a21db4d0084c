//! Loads a rigged 2D character model: the manifest, the motion curves, the
//! expressions and the other documents that the manifest refers to, read into
//! typed values, held to what they declare, and handed out as plain records.
//!
//! The library reads no file and knows no host. Callers read the files that
//! [`loader::CubismModelFactory::plan`] lists and hand over what they read;
//! the solver that deforms the meshes stands behind the plain values of
//! [`solver`].

pub mod datum;
pub mod decode;
pub mod dict_helpers;
pub mod error;
pub mod expression;
pub mod flags;
pub mod group;
pub mod json;
pub mod loader;
pub mod manifest;
pub mod model;
pub mod motion;
pub mod resolver;
pub mod scalar;
pub mod solver;
