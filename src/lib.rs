//! A client library for the Coincheck REST API.
//!
//! The verified core covers the parameter types, nonce formatting, request
//! signing, request construction and status handling. Sending the request and
//! decoding its JSON body belong to the caller.

pub mod decimal;
pub mod endpoints;
pub mod error;
pub mod records;
pub mod request;
pub mod signing;
pub mod types;
