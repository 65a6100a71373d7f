//! Packaging of a JVM application with a minimized runtime into one
//! self-extracting executable: the rules of the pipeline, stated and proved.

pub mod config;
pub mod detect;
pub mod digest;
pub mod error;
pub mod jlink;
pub mod jvm;
pub mod pack;
pub mod pipeline;
pub mod text;
pub mod uberjar;
