//! A small web service's core: how the service finds the cloud project it runs
//! in, which port it listens on, and the HTML pages it serves.
pub mod config;
pub mod identity;
pub mod pages;
