//! A tool and prompt dispatch core for a home-automation bridge: prompt
//! templates with argument checking, the catalogue of built-in prompts, the
//! cache of the entities last fetched, and the decisions a server takes
//! around each call to the backend.

pub mod error;
pub mod hass;
pub mod json;
pub mod prompts;
pub mod text;
