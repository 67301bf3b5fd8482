//! Command resolution and workflow decisions for a dotfiles manager that keeps
//! a bare git repository whose work tree is the user's home directory.

pub mod args;
pub mod git;
pub mod laws;
pub mod path;
pub mod run;
pub mod status;
pub mod template;
pub mod text;
pub mod workflow;
