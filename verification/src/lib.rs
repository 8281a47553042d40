//! Sidecar support library: resolving the platform-qualified file name of an
//! auxiliary executable that the application shell launches at startup.

pub mod path_builder;
