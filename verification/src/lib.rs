//! Backend logic of the Dynamify demo: a prompt goes upstream with a fixed
//! instruction, and the HTML fragment that comes back is unwrapped from two
//! layers of JSON and freed of HTML entities.
//!
//! The library makes no call of its own. [`GeminiClient::request`] says what
//! to send, [`GeminiClient::generate_text`] makes of what came back the HTML
//! or the error, and [`route`] says what the HTTP routes answer. Sending,
//! serving and reading the environment are left to the program around it.

pub mod entities;
pub mod error;
pub mod gemini;
pub mod json;
pub mod literal;
pub mod lookup;
pub mod request;
pub mod response;
pub mod route;
pub mod settings;

pub use error::{ConfigError, GenerationError};
pub use gemini::{GeminiClient, UpstreamOutcome};
pub use request::UpstreamRequest;
pub use settings::Settings;
