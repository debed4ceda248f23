//! A minimal HTTP server library: a bounded worker-pool dispatcher, exact
//! literal route matching, and response formatting, each with a verified
//! contract. Page rendering goes through a template engine behind a trusted
//! wrapper; sockets, threads and the command line live outside the library.

pub mod decimal;
pub mod html;
pub mod pool;
pub mod response;
pub mod route;
pub mod schedule;
