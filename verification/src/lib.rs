//! A typed client for the OpenAI HTTP API, without the HTTP: every request
//! says which call it stands for, and every answer is read into a value or
//! a failure. Making the call is left to the caller.

pub mod audio;
pub mod chat;
pub mod client;
pub mod codec;
pub mod common;
pub mod completion;
pub mod edit;
pub mod embeddings;
pub mod error;
pub mod files;
pub mod fine_tunes;
pub mod http;
pub mod image;
pub mod json;
pub mod model;
pub mod moderations;
pub mod response;
pub mod text;

pub use client::OpenAiClient;
pub use common::{DeleteResponse, Input, Usage};
pub use error::{ApiError, ApiErrorDetails, Error, ErrorResponse, Failure, PreconditionError};
pub use http::{ApiRequest, HttpRequest, Listing};
pub use response::process_response;
