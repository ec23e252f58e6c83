//! Request handling of a set of small web services: replies, route tables,
//! a session-backed login flow, a posts API and template pages.
pub mod reply;
pub mod path;
pub mod routing;
pub mod posts;
pub mod session;
pub mod pages;
pub mod logging;
