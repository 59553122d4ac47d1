//! Security context of a file entry: who owns it, and how that is shown.
//!
//! [`identity`] turns what the operating system answers about a security
//! identifier into an account name, reading its buffers with [`utf16`];
//! [`resolver`] does so for the owner and the group of a path, and
//! [`context`] holds the result. [`render`] shows a context as styled text,
//! with [`label`] for the parts of a label and [`width`] for the columns
//! that a text takes.

pub mod context;
pub mod identity;
pub mod label;
pub mod render;
pub mod resolver;
pub mod utf16;
pub mod width;
