//! What operators and monitors see and ask for.

pub mod access;
pub mod drawing;
pub mod exposition;
pub mod laws;
pub mod picture;
pub mod requests;
pub mod status;
pub mod template;
