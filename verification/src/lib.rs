//! The core of a loader that injects itself into a CEF-based client: it
//! encodes strings for CEF, builds and keeps inline hooks, and decides which
//! processes to hook and when to run its script.
pub mod bootstrap;
pub mod browser;
pub mod cef;
pub mod hook;
pub mod process;
pub mod renderer;
pub mod text;
