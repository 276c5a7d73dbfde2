//! Custom requests of editor clients.

pub mod browsing;
pub mod navigation;
pub mod navigation_laws;
