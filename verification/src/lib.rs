//! Core of the messaging back end: request checks, the bearer-token
//! extractor, token issuing, and the decisions of the login, signup and
//! chat-creation handlers. The HTTP server, the database and the
//! environment are driven by the binary in `app/`, which hands plain
//! values to the functions here and acts on what they return.

pub mod error;
pub mod text;
pub mod extractors;
pub mod structures;
pub mod crypto;
pub mod clock;
pub mod ids;
pub mod jwt;
pub mod login;
pub mod signup;
pub mod chat;
pub mod health;
pub mod config;
