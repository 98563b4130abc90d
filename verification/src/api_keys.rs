//! API key data models.

use vstd::prelude::*;

verus! {

/// Represents an API key (without the secret).
#[derive(Debug, PartialEq)]
pub struct ApiKey {
    /// The unique identifier for the API key.
    pub key_id: String,
    /// The descriptive label for the API key.
    pub label: String,
    /// The creation timestamp.
    pub created_time: String,
    /// Whether the key is currently active.
    pub is_active: bool,
}

/// A newly created API key with its secret.
#[derive(Debug, PartialEq)]
pub struct ApiKeyCreated {
    /// The unique identifier for the API key.
    pub key_id: String,
    /// The descriptive label for the API key.
    pub label: String,
    /// The API key secret (only shown once).
    pub secret: String,
    /// The creation timestamp.
    pub created_time: String,
}

/// A regenerated API key secret.
#[derive(Debug, PartialEq)]
pub struct ApiKeySecret {
    /// The API key secret.
    pub secret: String,
}

} // verus!
