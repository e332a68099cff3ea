//! A client for the GrammarBot grammar-checking service.
//!
//! The library holds the client's configuration, describes the request that a
//! check sends, and decodes the service's JSON reply into typed values.
//! Sending the request is left to the caller.

pub mod client;
pub mod error;
pub mod json;
pub mod types;

pub use client::{Client, Request};
pub use error::{Error, JsonError};
pub use json::Json;
pub use types::{
    Category, Context, DetectedLanguage, Language, Match, Replacement, Response, Rule, Software,
    Type, Warnings,
};
