//! Locating a HIP toolkit installation and deriving the link and
//! binding-generation settings for the HIP runtime, hipBLAS and hipBLASLt.
//!
//! Everything here is pure: the environment and the file system are read by
//! the caller and handed in as plain values, so each decision is verified.

pub mod component;
pub mod link;
pub mod paths;
pub mod resolve;
pub mod translate;

pub use component::Component;
pub use link::{link_spec, rerun_directives, LinkSpec};
pub use paths::{join_path, DEFAULT_HIP_PATH};
pub use resolve::{
    get_hip_path, resolve_dependent_root, resolve_explicit, resolve_runtime_root,
    sibling_candidate, EnvVar, Resolution, ResolveError, RootSource, VarValue,
};
pub use translate::{
    blas_dir_beside_runtime, blas_translation, blaslt_translation, runtime_translation,
    TranslationConfig,
};
