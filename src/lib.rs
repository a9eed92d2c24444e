pub mod handlers;
pub mod laws;
pub mod repositories;
pub mod validation;
