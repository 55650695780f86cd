//! A query client for a breach-notification service: request URLs for each
//! endpoint, and decoding of the service's JSON answers into typed records.

pub mod json;
pub mod error;
pub mod records;
pub mod decode;
pub mod endpoints;
