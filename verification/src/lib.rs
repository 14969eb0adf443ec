//! A URL shortener: long URLs are checked, given a short key derived from
//! their SHA-256 digest, stored under that key, looked up again for a
//! redirect, and deleted. The store itself is reached by the application
//! around this library; the library decides, step by step, what to store,
//! what to answer and which error to report.

pub mod handler;
pub mod key;
pub mod parser;
