//! Core logic of a desktop shell that runs a local HTTP backend as a sidecar
//! process: where the sidecar lives, how its output is logged, the lifecycle of
//! its process handle, and how GUI calls become requests to it.
pub mod forward;
pub mod supervisor;
