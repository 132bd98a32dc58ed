//! One HTTP request as an independently cancellable task: the decisions of
//! its life, from the build of the request to the one terminal reply.

pub mod command;
pub mod config;
pub mod engine;
pub mod error;
pub mod handle;
pub mod laws;
pub mod message;
pub mod method;
pub mod req;
pub mod request;
pub mod views;
