//! Render a one-line summary of a git repository's state for shell prompts:
//! branch, change markers, remote-host icon, fetch reminder and divergence
//! arrows, composed under the options of `options::Options`.
pub mod changes;
pub mod format;
pub mod icons;
pub mod options;
pub mod remote;
pub mod text;
