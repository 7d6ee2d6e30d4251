pub mod dependency;
pub mod identity;
pub mod json;
pub mod reply;
pub mod evaluate;
pub mod openapi;
pub mod laws;
