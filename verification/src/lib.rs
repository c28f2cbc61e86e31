//! A verified core for a memory-card manager: the bridge to the Python
//! `python_core.api` module and the decisions of its window.
pub mod text;
mod python;
pub mod bridge;
pub mod jobs;
pub mod window;
