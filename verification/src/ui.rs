//! What the user interface of a client is made of.

pub mod app;
pub mod draw;
