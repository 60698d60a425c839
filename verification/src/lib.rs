//! A minimal HTTP greeter service, split into verified logic and a thin
//! runtime shell. This library holds everything the service decides:
//! how the three configuration values are resolved from optional
//! environment inputs, how the root-alias path and the bind address are
//! built, how request paths are normalized, and which reply a request
//! receives. The unverified shell only reads the environment, prints the
//! startup line, and runs the HTTP listener.

pub mod config;
pub mod routes;
